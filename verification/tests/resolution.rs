use zbus_xml_match::Argument;
use zbus_xml_match::Document;
use zbus_xml_match::InterfaceDecl;
use zbus_xml_match::MethodDecl;
use zbus_xml_match::ResolveError;
use zbus_xml_match::SignalDecl;
use zbus_xml_match::query::resolve_event_body_type;
use zbus_xml_match::query::resolve_method_return_type;
use zbus_xml_match::query::resolve_signal_body_type;

fn arg(name: Option<&str>, direction: Option<&str>, ty: &str) -> Argument {
    Argument {
        name: name.map(|s| s.to_owned()),
        direction: direction.map(|s| s.to_owned()),
        ty: ty.to_owned(),
    }
}

fn cache_document() -> Document {
    Document {
        interfaces: vec![
            InterfaceDecl {
                name: "org.a11y.atspi.Cache".to_owned(),
                methods: vec![MethodDecl {
                    name: "GetItems".to_owned(),
                    args: vec![arg(Some("nodes"), Some("out"), "a((so)(so)(so)iiassusau)")],
                }],
                signals: vec![
                    SignalDecl {
                        name: "AddAccessible".to_owned(),
                        args: vec![arg(Some("nodeAdded"), None, "((so)(so)(so)iiassusau)")],
                    },
                    SignalDecl {
                        name: "RemoveAccessible".to_owned(),
                        args: vec![arg(Some("nodeRemoved"), None, "(so)")],
                    },
                ],
            },
            InterfaceDecl {
                name: "org.a11y.atspi.Accessible".to_owned(),
                methods: vec![
                    MethodDecl {
                        name: "GetRole".to_owned(),
                        args: vec![arg(Some("role"), Some("in"), "u")],
                    },
                    MethodDecl {
                        name: "GetChildAtIndex".to_owned(),
                        args: vec![
                            arg(Some("index"), Some("in"), "i"),
                            arg(Some("child"), Some("out"), "(so)"),
                            arg(Some("extra"), Some("out"), "u"),
                        ],
                    },
                ],
                signals: vec![],
            },
        ],
    }
}

#[test]
fn signal_argument_is_resolved_by_name() {
    let doc = cache_document();
    let sig = resolve_signal_body_type(
        &doc,
        "org.a11y.atspi.Cache",
        "AddAccessible",
        Some("nodeAdded"),
    )
    .unwrap();
    assert_eq!(sig.as_str(), "((so)(so)(so)iiassusau)");
}

#[test]
fn signal_argument_lookup_is_case_sensitive() {
    let doc = cache_document();
    let miss = resolve_signal_body_type(
        &doc,
        "org.a11y.atspi.Cache",
        "AddAccessible",
        Some("NodeAdded"),
    );
    assert_eq!(miss.unwrap_err(), ResolveError::ArgumentNotFound);
    let miss = resolve_signal_body_type(
        &doc,
        "org.a11y.atspi.Cache",
        "AddAccessible",
        Some("nodeadded"),
    );
    assert_eq!(miss.unwrap_err(), ResolveError::ArgumentNotFound);
}

#[test]
fn signal_argument_not_found_when_absent() {
    let doc = cache_document();
    let miss = resolve_signal_body_type(
        &doc,
        "org.a11y.atspi.Cache",
        "RemoveAccessible",
        Some("nodeAdded"),
    );
    assert_eq!(miss.unwrap_err(), ResolveError::ArgumentNotFound);
}

#[test]
fn method_return_takes_first_out_argument() {
    let doc = cache_document();
    let sig =
        resolve_method_return_type(&doc, "org.a11y.atspi.Accessible", "GetChildAtIndex").unwrap();
    assert_eq!(sig.as_str(), "(so)");
}

#[test]
fn method_with_only_in_arguments_has_no_output() {
    let doc = cache_document();
    let miss = resolve_method_return_type(&doc, "org.a11y.atspi.Accessible", "GetRole");
    assert_eq!(miss.unwrap_err(), ResolveError::NoOutputArgument);
}

#[test]
fn method_return_direction_is_case_sensitive() {
    let doc = Document {
        interfaces: vec![InterfaceDecl {
            name: "org.a11y.atspi.Table".to_owned(),
            methods: vec![MethodDecl {
                name: "GetRowHeader".to_owned(),
                args: vec![arg(Some("header"), Some("Out"), "(so)")],
            }],
            signals: vec![],
        }],
    };
    let miss = resolve_method_return_type(&doc, "org.a11y.atspi.Table", "GetRowHeader");
    assert_eq!(miss.unwrap_err(), ResolveError::NoOutputArgument);
}

#[test]
fn event_body_concatenates_types_in_order() {
    let doc = Document {
        interfaces: vec![InterfaceDecl {
            name: "org.a11y.atspi.Event.Object".to_owned(),
            methods: vec![],
            signals: vec![SignalDecl {
                name: "StateChanged".to_owned(),
                args: vec![
                    arg(Some("minor"), None, "s"),
                    arg(None, None, "i"),
                    arg(Some("detail"), None, "i"),
                    arg(None, None, "va{sv}"),
                ],
            }],
        }],
    };
    let sig =
        resolve_event_body_type(&doc, "org.a11y.atspi.Event.Object", "StateChanged").unwrap();
    assert_eq!(sig.as_str(), "(siiva{sv})");
}

#[test]
fn event_body_of_zero_arguments_is_the_empty_aggregate() {
    let doc = Document {
        interfaces: vec![InterfaceDecl {
            name: "org.a11y.atspi.Event.Text".to_owned(),
            methods: vec![],
            signals: vec![SignalDecl { name: "TextCaretMoved".to_owned(), args: vec![] }],
        }],
    };
    let sig = resolve_event_body_type(&doc, "org.a11y.atspi.Event.Text", "TextCaretMoved").unwrap();
    assert_eq!(sig.as_str(), "()");
}

#[test]
fn resolution_is_idempotent() {
    let doc = cache_document();
    let first = resolve_signal_body_type(
        &doc,
        "org.a11y.atspi.Cache",
        "AddAccessible",
        Some("nodeAdded"),
    )
    .unwrap();
    let second = resolve_signal_body_type(
        &doc,
        "org.a11y.atspi.Cache",
        "AddAccessible",
        Some("nodeAdded"),
    )
    .unwrap();
    assert_eq!(first.as_str(), second.as_str());
    let third =
        resolve_method_return_type(&doc, "org.a11y.atspi.Accessible", "GetChildAtIndex").unwrap();
    let fourth =
        resolve_method_return_type(&doc, "org.a11y.atspi.Accessible", "GetChildAtIndex").unwrap();
    assert_eq!(third.as_str(), fourth.as_str());
}

#[test]
fn unknown_interface_is_reported() {
    let doc = cache_document();
    let miss = resolve_signal_body_type(&doc, "org.a11y.atspi.Cache2", "AddAccessible", None);
    assert_eq!(miss.unwrap_err(), ResolveError::InterfaceNotFound);
    let miss = resolve_method_return_type(&doc, "", "GetRole");
    assert_eq!(miss.unwrap_err(), ResolveError::InterfaceNotFound);
    let miss = resolve_event_body_type(&doc, "org.a11y.atspi.cache", "AddAccessible");
    assert_eq!(miss.unwrap_err(), ResolveError::InterfaceNotFound);
}

#[test]
fn unknown_member_is_reported() {
    let doc = cache_document();
    let miss = resolve_signal_body_type(&doc, "org.a11y.atspi.Cache", "GetItems", None);
    assert_eq!(miss.unwrap_err(), ResolveError::MemberNotFound);
    let miss = resolve_method_return_type(&doc, "org.a11y.atspi.Cache", "AddAccessible");
    assert_eq!(miss.unwrap_err(), ResolveError::MemberNotFound);
}

#[test]
fn unnamed_argument_matches_a_request_without_name() {
    let doc = Document {
        interfaces: vec![InterfaceDecl {
            name: "org.a11y.atspi.Event.Mouse".to_owned(),
            methods: vec![],
            signals: vec![SignalDecl {
                name: "Abs".to_owned(),
                args: vec![arg(Some("x"), None, "i"), arg(None, None, "u")],
            }],
        }],
    };
    let sig = resolve_signal_body_type(&doc, "org.a11y.atspi.Event.Mouse", "Abs", None).unwrap();
    assert_eq!(sig.as_str(), "u");
}
