use net_flow::toast::escape_xml;

#[test]
fn escapes_toast_content() {
    assert_eq!(escape_xml("A & B < C"), "A &amp; B &lt; C");
}
