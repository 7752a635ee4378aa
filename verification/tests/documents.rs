use zbus_xml_match::ResolveError;
use zbus_xml_match::query::event_body_type_from_xml;
use zbus_xml_match::query::method_return_type_from_xml;
use zbus_xml_match::query::resolve_event_body_type;
use zbus_xml_match::query::signal_body_type_from_xml;
use zbus_xml_match::zbus_api::parse_document;

static CACHE_XML: &str = r#"
<node>
  <interface name="org.a11y.atspi.Cache">
    <method name="GetItems">
      <arg direction="out" name="nodes" type="a((so)(so)(so)iiassusau)"/>
    </method>
    <signal name="AddAccessible">
      <arg name="nodeAdded" type="((so)(so)(so)iiassusau)"/>
    </signal>
    <signal name="RemoveAccessible">
      <arg name="nodeRemoved" type="(so)"/>
    </signal>
  </interface>
</node>
"#;

static ACCESSIBLE_XML: &str = r#"
<node>
  <interface name="org.a11y.atspi.Accessible">
    <method name="GetRole">
      <arg direction="in" name="role" type="u"/>
    </method>
  </interface>
</node>
"#;

static EVENT_XML: &str = r#"
<node>
  <interface name="org.a11y.atspi.Event.Object">
    <signal name="StateChanged">
      <arg type="s"/>
      <arg type="i"/>
      <arg type="i"/>
      <arg type="va{sv}"/>
    </signal>
  </interface>
  <interface name="org.a11y.atspi.Event.Text">
    <signal name="TextCaretMoved"/>
  </interface>
  <interface name="org.a11y.atspi.Event.Mouse">
    <signal name="Abs">
      <arg type="i"/>
      <arg type="i"/>
    </signal>
  </interface>
</node>
"#;

#[test]
fn cache_add_accessible_node_added_signature() {
    let sig = signal_body_type_from_xml(
        CACHE_XML,
        "org.a11y.atspi.Cache",
        "AddAccessible",
        Some("nodeAdded"),
    )
    .unwrap();
    assert_eq!(sig.as_str(), "((so)(so)(so)iiassusau)");
}

#[test]
fn cache_remove_accessible_node_removed_signature() {
    let sig = signal_body_type_from_xml(
        CACHE_XML,
        "org.a11y.atspi.Cache",
        "RemoveAccessible",
        Some("nodeRemoved"),
    )
    .unwrap();
    assert_eq!(sig.as_str(), "(so)");
}

#[test]
fn accessible_get_role_has_no_output_argument() {
    let miss = method_return_type_from_xml(ACCESSIBLE_XML, "org.a11y.atspi.Accessible", "GetRole");
    assert_eq!(miss.unwrap_err(), ResolveError::NoOutputArgument);
}

#[test]
fn cache_get_items_return_signature() {
    let sig = method_return_type_from_xml(CACHE_XML, "org.a11y.atspi.Cache", "GetItems").unwrap();
    assert_eq!(sig.as_str(), "a((so)(so)(so)iiassusau)");
}

#[test]
fn object_state_changed_event_body_signature() {
    let sig =
        event_body_type_from_xml(EVENT_XML, "org.a11y.atspi.Event.Object", "StateChanged").unwrap();
    assert_eq!(sig.as_str(), "(siiva{sv})");
}

#[test]
fn text_caret_moved_event_body_is_empty_aggregate() {
    let sig =
        event_body_type_from_xml(EVENT_XML, "org.a11y.atspi.Event.Text", "TextCaretMoved").unwrap();
    assert_eq!(sig.as_str(), "()");
}

#[test]
fn mouse_abs_event_body_signature() {
    let sig = event_body_type_from_xml(EVENT_XML, "org.a11y.atspi.Event.Mouse", "Abs").unwrap();
    assert_eq!(sig.as_str(), "(ii)");
}

#[test]
fn unknown_interface_in_parsed_document_is_reported() {
    let miss = event_body_type_from_xml(EVENT_XML, "org.a11y.atspi.Event.Keyboard", "Abs");
    assert_eq!(miss.unwrap_err(), ResolveError::InterfaceNotFound);
}

#[test]
fn malformed_document_is_a_parse_failure() {
    let miss = signal_body_type_from_xml("<node", "org.a11y.atspi.Cache", "AddAccessible", None);
    assert_eq!(miss.unwrap_err(), ResolveError::DocumentParseFailure);
}

#[test]
fn parsed_document_keeps_declaration_order() {
    let doc = parse_document(EVENT_XML).unwrap();
    assert_eq!(doc.interfaces.len(), 3);
    assert_eq!(doc.interfaces[0].name, "org.a11y.atspi.Event.Object");
    assert_eq!(doc.interfaces[0].signals[0].args.len(), 4);
    assert_eq!(doc.interfaces[0].signals[0].args[0].ty, "s");
    let sig = resolve_event_body_type(&doc, "org.a11y.atspi.Event.Object", "StateChanged").unwrap();
    assert_eq!(sig.as_str(), "(siiva{sv})");
}
