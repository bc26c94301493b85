use bsproxy::XHTTPHandler;

#[test]
fn root_gets_the_banner() {
    let handler = XHTTPHandler::new();
    let reply = handler.reply_to("/");
    assert_eq!(reply.status, 200);
    assert_eq!(
        reply.headers,
        vec![
            ("X-Status".to_string(), "Multi-Protocol".to_string()),
            ("X-Supported".to_string(), "SSL, SSH, WebSocket, XHTTP".to_string()),
        ]
    );
    assert_eq!(reply.body, "BSProxy Multi-Protocol Server");
}

#[test]
fn other_paths_are_not_found() {
    let handler = XHTTPHandler::new();
    let reply = handler.reply_to("/missing");
    assert_eq!(reply.status, 404);
    assert!(reply.headers.is_empty());
    assert_eq!(reply.body, "Route not found");
}
