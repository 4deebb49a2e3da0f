use komari_monitor_rs::urls::{build_urls, get_pty_ws_link, UrlError};

#[test]
fn derives_ws_base_from_http_base() {
    let urls = build_urls("http://h:8080", &None, "T").unwrap();
    assert_eq!(urls.ws_real_time_url, "ws://h:8080/api/clients/report?token=T");
    assert_eq!(urls.ws_terminal_url, "ws://h:8080/api/clients/terminal?token=T");
    assert_eq!(urls.basic_info_url, "http://h:8080/api/clients/uploadBasicInfo?token=T");
    assert_eq!(urls.exec_callback_url, "http://h:8080/api/clients/task/result?token=T");
}

#[test]
fn derives_wss_base_from_https_base() {
    let urls = build_urls("https://example.com/", &None, "abc").unwrap();
    assert_eq!(urls.ws_real_time_url, "wss://example.com/api/clients/report?token=abc");
    assert_eq!(urls.basic_info_url, "https://example.com/api/clients/uploadBasicInfo?token=abc");
}

#[test]
fn url_parser_normalizes_scheme_and_host() {
    let urls = build_urls("HTTP://Example.COM", &None, "t").unwrap();
    assert_eq!(urls.basic_info_url, "http://example.com/api/clients/uploadBasicInfo?token=t");
    assert_eq!(urls.ws_real_time_url, "ws://example.com/api/clients/report?token=t");
}

#[test]
fn explicit_ws_base_is_used() {
    let urls = build_urls("http://h:8080", &Some("wss://other:9000/".to_string()), "T").unwrap();
    assert_eq!(urls.ws_real_time_url, "wss://other:9000/api/clients/report?token=T");
    assert_eq!(urls.ws_terminal_url, "wss://other:9000/api/clients/terminal?token=T");
    assert_eq!(urls.basic_info_url, "http://h:8080/api/clients/uploadBasicInfo?token=T");
}

#[test]
fn invalid_http_base_is_rejected() {
    assert!(matches!(build_urls("not a url", &None, "T"), Err(UrlError::InvalidUrl(_))));
}

#[test]
fn invalid_ws_base_is_rejected() {
    let r = build_urls("http://h:8080", &Some("::".to_string()), "T");
    assert!(matches!(r, Err(UrlError::InvalidUrl(_))));
}

#[test]
fn unsupported_scheme_without_ws_base_is_rejected() {
    assert!(matches!(build_urls("ftp://h/", &None, "T"), Err(UrlError::UnsupportedScheme)));
}

#[test]
fn terminal_link_appends_request_id() {
    let link = get_pty_ws_link("r42", "ws://h:8080/api/clients/terminal?token=T");
    assert_eq!(link, "ws://h:8080/api/clients/terminal?token=T&id=r42");
}
