use cmux_gtk::base64::encode_base64;
use cmux_gtk::json::Json;
use cmux_gtk::markup::{extract_between, parse_attrs, strip_tags};
use cmux_gtk::page::{browser_state_for_url, can_read_url, html_from_url};
use cmux_gtk::page_json::{browser_state_from_json, browser_state_json};
use cmux_gtk::percent::{can_percent_decode, percent_decode};
use cmux_gtk::query::{browser_element_id, browser_inner_text, eval_browser_script};

#[test]
fn percent_signs_write_bytes() {
    assert_eq!(percent_decode("a%20b"), "a b");
    assert_eq!(percent_decode("caf%C3%A9"), "caf\u{e9}");
    assert_eq!(percent_decode("%zz%4"), "%zz%4");
    assert_eq!(percent_decode("plain"), "plain");
    assert_eq!(percent_decode("%ff"), "\u{fffd}");
    assert!(can_percent_decode("a%20b"));
    assert!(!can_percent_decode("%a\u{e9}"));
}

#[test]
fn escaped_text_is_read_back() {
    let samples = ["", "plain text", "100% of a+b", "caf\u{e9} \u{4e2d}\u{6587} \u{1f600}", "<p id=\"x\">"];
    for sample in samples {
        let escaped: String = sample.bytes().map(|b| format!("%{:02X}", b)).collect();
        assert!(can_percent_decode(&escaped));
        assert_eq!(percent_decode(&escaped), sample);
        if !sample.contains('%') {
            assert!(can_percent_decode(sample));
            assert_eq!(percent_decode(sample), sample);
        }
    }
}

#[test]
fn base64_pads_to_whole_groups() {
    assert_eq!(encode_base64(&b"".to_vec()), "");
    assert_eq!(encode_base64(&b"f".to_vec()), "Zg==");
    assert_eq!(encode_base64(&b"fo".to_vec()), "Zm8=");
    assert_eq!(encode_base64(&b"foo".to_vec()), "Zm9v");
    assert_eq!(encode_base64(&b"foobar".to_vec()), "Zm9vYmFy");
    assert_eq!(encode_base64(&vec![0xfb, 0xff]), "+/8=");
}

#[test]
fn attributes_are_read_in_order_of_name() {
    let attrs = parse_attrs("input id=\"b\" class='a' disabled");
    let names: Vec<&str> = attrs.iter().map(|(name, _)| name.as_str()).collect();
    assert_eq!(names, vec!["class", "disabled", "id"]);
    assert_eq!(attrs[0].1, "a");
    assert_eq!(attrs[2].1, "b");
}

#[test]
fn tags_are_taken_out_of_text() {
    assert_eq!(strip_tags("<p>one <b>two</b></p>"), "one two");
    assert_eq!(
        extract_between("<i><title>T</title>", "<title", "</title>"),
        Some(String::from("<title>T"))
    );
    assert_eq!(extract_between("none", "<title>", "</title>"), None);
}

#[test]
fn only_data_urls_hold_a_page() {
    assert_eq!(
        html_from_url("data:text/html,<p>hi%20there</p>"),
        Some(String::from("<p>hi there</p>"))
    );
    assert_eq!(html_from_url("https://a.example/"), None);
    assert!(can_read_url("https://a.example/"));
    assert!(!can_read_url("data:text/html,%a\u{e9}"));
    let blank = browser_state_for_url("https://a.example/");
    assert!(blank.is_empty());
}

#[test]
fn elements_are_found_by_selector() {
    let page = browser_state_for_url(
        "data:text/html,<title>T</title><h1 id=\"head\">Hello</h1><input id=\"name\" value=\"Ada\">",
    );
    assert_eq!(page.title, "T");
    assert_eq!(browser_element_id(&page, "#head").ok(), Some(String::from("head")));
    assert!(browser_element_id(&page, "#none").is_err());
    assert!(browser_inner_text(&page).contains("Hello"));
    match eval_browser_script(&page, "document.querySelector('#name').value") {
        Json::Text(value) => assert_eq!(value, "Ada"),
        _ => panic!("a value is a text"),
    }
    assert!(eval_browser_script(&page, "6 * 7").is_null());
}

#[test]
fn a_page_written_as_json_is_read_back() {
    let page = browser_state_for_url(
        "data:text/html,<title>T</title><input id=\"name\" value=\"Ada\"><p id=\"p\">x</p>",
    );
    let back = browser_state_from_json(&browser_state_json(&page)).unwrap();
    assert_eq!(back.title, page.title);
    assert_eq!(back.html, page.html);
    assert_eq!(back.elements.len(), page.elements.len());
    assert_eq!(back.element("name").unwrap().value, "Ada");
    assert!(browser_state_from_json(&Json::Null).is_none());
}
