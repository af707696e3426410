use hextacy::config::{Extractor, Handler, HandlerInput, Route, RouteHandler};

#[test]
fn extractor_names() {
    assert_eq!(Extractor::from("json".to_string()), Extractor::Json);
    assert_eq!(Extractor::from("Path".to_string()), Extractor::Path);
    assert_eq!(Extractor::from("query".to_string()), Extractor::Query);
    assert_eq!(Extractor::from("Form".to_string()), Extractor::Form);
    assert_eq!(Extractor::from("HttpRequest".to_string()), Extractor::Request);
    assert_eq!(Extractor::from("request".to_string()), Extractor::Request);
    assert_eq!(Extractor::from("String".to_string()), Extractor::String);
    assert_eq!(Extractor::from("bytes".to_string()), Extractor::Bytes);
    assert_eq!(Extractor::from("Payload".to_string()), Extractor::Payload);
    assert_eq!(Extractor::from("data".to_string()), Extractor::Data);
    assert_eq!(Extractor::from("JSON".to_string()), Extractor::Invalid);
    assert_eq!(Extractor::from(String::new()), Extractor::Invalid);
}

#[test]
fn route_handler_copies_route_and_handler() {
    let route = Route {
        method: "get".to_string(),
        handler_name: "list".to_string(),
        path: "/users".to_string(),
        middleware: Some(vec!["auth".to_string()]),
        service: None,
    };
    let handler = Handler {
        name: "list".to_string(),
        inputs: vec![HandlerInput { ext_type: "Query".to_string(), data_type: "Page".to_string() }],
        bound: Some("Repo".to_string()),
    };
    let rh = RouteHandler::from((&route, Some(&handler)));
    assert_eq!(rh.method, "get");
    assert_eq!(rh.path, "/users");
    assert_eq!(rh.middleware, Some(vec!["auth".to_string()]));
    assert_eq!(rh.service, None);
    let h = rh.handler.unwrap();
    assert_eq!(h.name, "list");
    assert_eq!(h.inputs.len(), 1);
    assert_eq!(h.inputs[0].ext_type, "Query");
    assert_eq!(h.bound, Some("Repo".to_string()));
    assert!(RouteHandler::from((&route, None)).handler.is_none());
}
