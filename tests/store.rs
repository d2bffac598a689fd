use easy_i18n::interp::{interpolate, interpolate_parts, parse_ordinal, placeholder_value};
use easy_i18n::source::Source;
use easy_i18n::store::{language_of_file, I18n};

fn s(x: &str) -> String {
    x.to_string()
}

fn table(namespaces: &[(&str, &[(&str, &str)])]) -> Source {
    Source::new(
        namespaces
            .iter()
            .map(|(ns, entries)| (s(ns), entries.iter().map(|(k, v)| (s(k), s(v))).collect()))
            .collect(),
    )
}

fn vals(v: &[&str]) -> Vec<String> {
    v.iter().map(|x| s(x)).collect()
}

#[test]
fn it_works() {
    let mut i18n = I18n::new("cn");
    i18n.set_source(vec![(
        s("en.json"),
        table(&[
            ("common", &[("这是一个测试", "This is a test")]),
            ("namespace1", &[("这是一个测试", "This is a test, but it is different")]),
        ]),
    )]);
    i18n.set_lang("en");
    assert_eq!(i18n.translate("这是一个测试", None), "This is a test");
    assert_eq!(
        i18n.translate("这是一个测试", Some(s("namespace1"))),
        "This is a test, but it is different"
    );
}

#[test]
fn missing_key_falls_back_to_key() {
    let mut i18n = I18n::new("en");
    i18n.set_source(vec![(s("en.json"), table(&[("common", &[("hi", "hello")])]))]);
    assert_eq!(i18n.translate("bye", None), "bye");
    assert_eq!(i18n.translate("hi", Some(s("nowhere"))), "hi");
}

#[test]
fn loaded_text_returned_exactly() {
    let mut i18n = I18n::new("cn");
    i18n.set_source(vec![(s("de.json"), table(&[("ui", &[("k", "  Wert mit Leerzeichen \n")])]))]);
    i18n.set_lang("de");
    assert_eq!(i18n.translate("k", Some(s("ui"))), "  Wert mit Leerzeichen \n");
}

#[test]
fn language_id_ignores_case() {
    let mut i18n = I18n::new("cn");
    i18n.set_source(vec![(s("en.json"), table(&[("common", &[("hi", "hello")])]))]);
    i18n.set_lang("en");
    let lower = i18n.translate("hi", None);
    i18n.set_lang("EN");
    let upper = i18n.translate("hi", None);
    assert_eq!(lower, "hello");
    assert_eq!(lower, upper);
}

#[test]
fn missing_namespace_means_common() {
    let mut i18n = I18n::new("en");
    i18n.set_source(vec![(
        s("en.json"),
        table(&[("common", &[("hi", "hello")]), ("formal", &[("hi", "Good day")])]),
    )]);
    assert_eq!(i18n.translate("hi", None), i18n.translate("hi", Some(s("common"))));
}

#[test]
fn scores_are_substituted() {
    let mut i18n = I18n::new("en");
    i18n.set_source(vec![(
        s("en.json"),
        table(&[("common", &[("他的成绩是，语文：%1, 数学：%2", "Scores: %1, %2")])]),
    )]);
    let r = i18n.trans_with_inter("他的成绩是，语文：%1, 数学：%2", vals(&["88", "100"]), None);
    assert_eq!(r, "Scores: 88, 100");
}

#[test]
fn ordinal_out_of_range_is_empty() {
    assert_eq!(interpolate("a%5b", &vals(&["x", "y"])), "ab");
    assert_eq!(placeholder_value("%3", &vals(&["x", "y"])), "");
}

#[test]
fn ordinal_zero_is_empty() {
    assert_eq!(interpolate("[%0]", &vals(&["x", "y"])), "[]");
    assert_eq!(placeholder_value("%0", &vals(&[])), "");
    assert_eq!(placeholder_value("%00", &vals(&["x"])), "");
}

#[test]
fn ordinal_overflow_is_empty() {
    assert_eq!(parse_ordinal("%255"), Some(255));
    assert_eq!(parse_ordinal("%256"), None);
    assert_eq!(parse_ordinal("%007"), Some(7));
    assert_eq!(interpolate("<%300>", &vals(&["x"])), "<>");
}

#[test]
fn placeholder_in_fallback_key_is_substituted() {
    let i18n = I18n::new("en");
    let r = i18n.trans_with_inter("%2 and %1 and %%1%", vals(&["a", "b"]), None);
    assert_eq!(r, "b and a and %a%");
}

#[test]
fn interpolation_keeps_text_without_placeholders() {
    assert_eq!(interpolate("100% sure", &vals(&["x"])), "100% sure");
    assert_eq!(interpolate("", &vals(&["x"])), "");
    assert_eq!(interpolate("%1%2%1", &vals(&["x", "y"])), "xyx");
}

#[test]
fn non_ascii_digits_give_no_ordinal() {
    assert_eq!(parse_ordinal("%١"), None);
    assert_eq!(placeholder_value("%١", &vals(&["x"])), "");
}

#[test]
fn parts_are_joined_in_order() {
    let r = interpolate_parts(&vals(&["a", "b", "c"]), &vals(&["%2", "%1"]), &vals(&["X", "Y"]));
    assert_eq!(r, "aYbXc");
}

#[test]
fn empty_source_translates_nothing() {
    let mut i18n = I18n::new("en");
    i18n.set_source(vec![(s("en.json"), table(&[("common", &[("hi", "hello")])]))]);
    i18n.set_source(vec![]);
    assert_eq!(i18n.translate("hi", None), "hi");
    assert_eq!(i18n.translate("hi", Some(s("common"))), "hi");
}

#[test]
fn languages_switch_between_tables() {
    let mut i18n = I18n::new("cn");
    i18n.set_source(vec![
        (s("en.json"), table(&[("common", &[("hi", "hello")])])),
        (s("zh.json"), table(&[("common", &[("hi", "你好")])])),
    ]);
    i18n.set_lang("en");
    assert_eq!(i18n.translate("hi", None), "hello");
    i18n.set_lang("zh");
    assert_eq!(i18n.translate("hi", None), "你好");
    i18n.set_lang("fr");
    assert_eq!(i18n.translate("hi", None), "hi");
}

#[test]
fn namespaces_are_isolated() {
    let mut i18n = I18n::new("en");
    i18n.set_source(vec![(
        s("en.json"),
        table(&[("common", &[("hi", "hello")]), ("formal", &[("hi", "Good day")])]),
    )]);
    assert_eq!(i18n.translate("hi", None), "hello");
    assert_eq!(i18n.translate("hi", Some(s("formal"))), "Good day");
}

#[test]
fn file_names_give_language_ids() {
    assert_eq!(language_of_file("en.json"), Some(s("EN")));
    assert_eq!(language_of_file("zh-cn.JSON"), Some(s("ZH-CN")));
    assert_eq!(language_of_file("a.b.json"), Some(s("A.B")));
    assert_eq!(language_of_file(".json"), Some(s("")));
    assert_eq!(language_of_file("en.json.bak"), None);
    assert_eq!(language_of_file("en.txt"), None);
    assert_eq!(language_of_file("json"), None);
}

#[test]
fn skipped_files_and_later_files_win() {
    let mut i18n = I18n::new("en");
    i18n.set_source(vec![
        (s("en.json"), table(&[("common", &[("hi", "first")])])),
        (s("notes.txt"), table(&[("common", &[("hi", "ignored")])])),
        (s("EN.Json"), table(&[("common", &[("hi", "second")])])),
    ]);
    assert_eq!(i18n.translate("hi", None), "second");
}

#[test]
fn later_entries_win_within_a_table() {
    let t = table(&[("common", &[("k", "a"), ("k", "b")]), ("x", &[("k", "c")]), ("common", &[("j", "d")])]);
    assert_eq!(t.get_val("k", None), None);
    assert_eq!(t.get_val("j", None), Some(s("d")));
    assert_eq!(t.get_val("k", Some(s("x"))), Some(s("c")));
    let u = table(&[("common", &[("k", "a"), ("k", "b")])]);
    assert_eq!(u.get_val("k", None), Some(s("b")));
    assert_eq!(u.get_val("missing", None), None);
}

#[test]
fn unicode_language_ids_are_upper_cased() {
    let mut i18n = I18n::new("ελ");
    i18n.set_source(vec![(s("ΕΛ.json"), table(&[("common", &[("hi", "γεια")])]))]);
    assert_eq!(i18n.translate("hi", None), "γεια");
}
