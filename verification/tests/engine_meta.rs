use pasir::api_version::ApiVersion;
use pasir::config::Serve;
use pasir::config::parse_define;
use pasir::context::Context;
use pasir::context::ContextSender;
use pasir::coordinator::pool_capacity;
use pasir::error::ExecutePhpError;
use pasir::error::LogLevel;
use pasir::error::error_status;
use pasir::error::log_level;
use pasir::http::HttpRequest;
use pasir::http::HttpVersion;
use pasir::http::SocketAddress;
use pasir::http::Stream;
use pasir::http::bad_request;
use pasir::http::effective_status;
use pasir::http::gateway_timeout;
use pasir::http::internal_server_error;
use pasir::http::service_unavailable;
use pasir::php_info::PHPInfo;
use pasir::resolver::FsSnapshot;
use pasir::sapi::init_sapi_globals;
use pasir::sapi::split_header_line;
use pasir::variables::header_env_name;
use pasir::variables::host_name;
use pasir::variables::server_variables;

#[test]
fn test_parse_define() {
    assert_eq!(parse_define(b"foo"), b"foo=On".to_vec());
    assert_eq!(parse_define(b"foo=bar"), b"foo=bar".to_vec());
}

#[test]
fn sapi_headers_default() {
    // an unset engine response code becomes the default status
    assert_eq!(effective_status(0), 200);
}

#[test]
fn effective_status_ranges() {
    assert_eq!(effective_status(404), 404);
    assert_eq!(effective_status(999), 999);
    assert_eq!(effective_status(99), 200);
    assert_eq!(effective_status(1000), 200);
    assert_eq!(effective_status(-7), 200);
}

#[test]
fn test_response_ext() {
    assert_eq!(bad_request().status, 400);
    assert_eq!(internal_server_error().status, 500);
    assert_eq!(service_unavailable().status, 503);
}

#[test]
fn test_response_ext_gateway_timeout() {
    let head = gateway_timeout();
    assert_eq!(head.status, 504);
    assert!(head.headers.is_empty());
}

#[test]
fn execute_errors_map_to_statuses() {
    assert_eq!(error_status(ExecutePhpError::InitSapiGlobalsError), 400);
    assert_eq!(error_status(ExecutePhpError::RequestStartupFailed), 503);
    assert_eq!(error_status(ExecutePhpError::Bailout), 500);
}

#[test]
fn engine_severities_map_to_levels() {
    assert_eq!(log_level(0), Some(LogLevel::Error));
    assert_eq!(log_level(3), Some(LogLevel::Error));
    assert_eq!(log_level(4), Some(LogLevel::Warn));
    assert_eq!(log_level(5), Some(LogLevel::Info));
    assert_eq!(log_level(6), Some(LogLevel::Info));
    assert_eq!(log_level(7), Some(LogLevel::Debug));
    assert_eq!(log_level(8), None);
    assert_eq!(log_level(-1), None);
}

#[test]
fn php_info_reads_keys() {
    let listing = b"phpinfo()\nPHP API => 20230831\nThread Safety => disabled\nZend Max Execution Timers => enabled\n".to_vec();
    let info = PHPInfo::new(listing);
    assert_eq!(info.get_key(b"PHP API"), Some(b"20230831".to_vec()));
    assert_eq!(info.zend_version(), Some(20230831));
    assert_eq!(info.thread_safety(), Some(false));
    assert_eq!(info.zend_max_execution_timers(), Some(true));
    assert_eq!(info.get_key(b"Server API"), None);
}

#[test]
fn php_info_missing_or_malformed() {
    let info = PHPInfo::new(b"PHP API => soon\n".to_vec());
    assert_eq!(info.zend_version(), None);
    assert_eq!(info.thread_safety(), None);
}

#[test]
fn api_version_bounds() {
    assert_eq!(ApiVersion::min(), ApiVersion::Php82);
    assert_eq!(ApiVersion::max(), ApiVersion::Php84);
    assert_eq!(
        ApiVersion::versions(),
        vec![ApiVersion::Php82, ApiVersion::Php83, ApiVersion::Php84]
    );
}

#[test]
fn api_version_supported_sets() {
    assert_eq!(ApiVersion::Php82.supported_apis(), vec![ApiVersion::Php82]);
    assert_eq!(
        ApiVersion::Php83.supported_apis(),
        vec![ApiVersion::Php82, ApiVersion::Php83]
    );
    assert_eq!(
        ApiVersion::Php84.supported_apis(),
        vec![ApiVersion::Php82, ApiVersion::Php83, ApiVersion::Php84]
    );
}

#[test]
fn api_version_cfg_names() {
    assert_eq!(ApiVersion::Php82.cfg_name(), "php82");
    assert_eq!(ApiVersion::Php83.cfg_name(), "php83");
    assert_eq!(ApiVersion::Php84.cfg_name(), "php84");
}

#[test]
fn api_version_classification() {
    assert_eq!(ApiVersion::try_from(20220829), Some(ApiVersion::Php82));
    assert_eq!(ApiVersion::try_from(20230000), Some(ApiVersion::Php82));
    assert_eq!(ApiVersion::try_from(20230831), Some(ApiVersion::Php83));
    assert_eq!(ApiVersion::try_from(20240924), Some(ApiVersion::Php84));
    assert_eq!(ApiVersion::try_from(20220828), None);
    assert_eq!(ApiVersion::try_from(20240925), None);
}

#[test]
fn serve_holds_its_parameters() {
    let serve = Serve::new(b"0.0.0.0".to_vec(), 3000, b"/var/www".to_vec());
    assert_eq!(serve.address(), &b"0.0.0.0".to_vec());
    assert_eq!(serve.port(), 3000);
    assert_eq!(serve.root(), &b"/var/www".to_vec());
}

#[test]
fn pool_capacity_scales_with_workers() {
    assert_eq!(pool_capacity(1), 10);
    assert_eq!(pool_capacity(8), 80);
}

#[test]
fn test_send_header_line_split() {
    let (name, value) = split_header_line(b"Foo: Bar").unwrap();
    assert_eq!(name, b"Foo".to_vec());
    assert_eq!(value, b"Bar".to_vec());
    assert_eq!(split_header_line(b"X-Empty:"), Some((b"X-Empty".to_vec(), b"".to_vec())));
    assert_eq!(split_header_line(b"no colon here"), None);
}

#[test]
fn header_names_derive_environment_names() {
    assert_eq!(header_env_name(b"host"), b"HTTP_HOST".to_vec());
    assert_eq!(
        header_env_name(b"x-forwarded-for"),
        b"HTTP_X_FORWARDED_FOR".to_vec()
    );
    assert_eq!(header_env_name(b"cookie"), b"HTTP_COOKIE".to_vec());
}

#[test]
fn host_names_lose_their_port() {
    assert_eq!(host_name(b"example.test:8080"), Some(b"example.test".to_vec()));
    assert_eq!(host_name(b"example.test"), Some(b"example.test".to_vec()));
    assert_eq!(host_name(b"[::1]:8080"), Some(b"[::1]".to_vec()));
    assert_eq!(host_name(b""), None);
}

fn blog_context() -> Context {
    let fs = FsSnapshot::new(vec![b"/index.php".to_vec(), b"/blog/index.php".to_vec()]);
    let (_head_rx, _body_rx, sender) = ContextSender::receiver();
    let stream = Stream::new(
        SocketAddress { ip: b"127.0.0.1".to_vec(), port: 3000 },
        SocketAddress { ip: b"10.1.2.3".to_vec(), port: 41000 },
    );
    let request = HttpRequest {
        method: b"GET".to_vec(),
        uri_path: b"/blog/2024/post-1".to_vec(),
        query: None,
        version: HttpVersion::Http11,
        headers: vec![
            (b"host".to_vec(), b"blog.test".to_vec()),
            (b"cookie".to_vec(), b"foo=bar".to_vec()),
        ],
        body: Vec::new(),
    };
    Context::new(b"/www".to_vec(), &fs, stream, request, sender, 1)
}

#[test]
fn blog_request_resolves_and_registers_variables() {
    // root /www holds index.php and blog/index.php; GET /blog/2024/post-1
    let ctx = blog_context();
    assert_eq!(ctx.script_name(), &b"/blog/index.php".to_vec());
    assert_eq!(ctx.path_info(), &Some(b"/2024/post-1".to_vec()));

    let vars = server_variables(&ctx, b"pasir/test".to_vec());
    let get = |name: &str| -> Vec<u8> {
        vars.iter()
            .find(|(n, _)| n == name.as_bytes())
            .map(|(_, v)| v.clone())
            .unwrap()
    };
    assert_eq!(get("SCRIPT_NAME"), b"/blog/index.php".to_vec());
    assert_eq!(get("PATH_INFO"), b"/2024/post-1".to_vec());
    assert_eq!(get("PHP_SELF"), b"/blog/index.php/2024/post-1".to_vec());
    assert_eq!(get("SCRIPT_FILENAME"), b"/www/blog/index.php".to_vec());
    assert_eq!(get("DOCUMENT_ROOT"), b"/www".to_vec());
    assert_eq!(get("REQUEST_URI"), b"/blog/2024/post-1".to_vec());
    assert_eq!(get("REQUEST_METHOD"), b"GET".to_vec());
    assert_eq!(get("SERVER_PROTOCOL"), b"HTTP/1.1".to_vec());
    assert_eq!(get("SERVER_NAME"), b"blog.test".to_vec());
    assert_eq!(get("SERVER_ADDR"), b"127.0.0.1".to_vec());
    assert_eq!(get("SERVER_PORT"), b"3000".to_vec());
    assert_eq!(get("REMOTE_ADDR"), b"10.1.2.3".to_vec());
    assert_eq!(get("REMOTE_PORT"), b"41000".to_vec());
    assert_eq!(get("HTTP_HOST"), b"blog.test".to_vec());
    assert_eq!(get("HTTP_COOKIE"), b"foo=bar".to_vec());
    assert_eq!(get("SERVER_SOFTWARE"), b"pasir/test".to_vec());
}

#[test]
fn test_init_sapi_globals() {
    let fs = FsSnapshot::new(vec![b"/index.php".to_vec()]);
    let (_head_rx, _body_rx, sender) = ContextSender::receiver();
    let stream = Stream::new(
        SocketAddress { ip: b"127.0.0.1".to_vec(), port: 3000 },
        SocketAddress { ip: b"127.0.0.1".to_vec(), port: 41000 },
    );
    let request = HttpRequest {
        method: b"POST".to_vec(),
        uri_path: b"/foo".to_vec(),
        query: Some(b"bar=baz".to_vec()),
        version: HttpVersion::Http3,
        headers: vec![
            (b"content-length".to_vec(), b"7".to_vec()),
            (b"content-type".to_vec(), b"text/plain".to_vec()),
        ],
        body: b"Foo Bar".to_vec(),
    };
    let ctx = Context::new(b"/www".to_vec(), &fs, stream, request, sender, 1);
    let info = init_sapi_globals(&ctx).unwrap();
    assert_eq!(info.method, b"POST".to_vec());
    assert_eq!(info.query, Some(b"bar=baz".to_vec()));
    assert_eq!(info.path_translated, b"/www/index.php".to_vec());
    assert_eq!(info.request_uri, b"/foo?bar=baz".to_vec());
    assert_eq!(info.content_length, 7);
    assert_eq!(info.content_type, Some(b"text/plain".to_vec()));
    assert_eq!(info.auth, None);
    assert_eq!(info.proto_num, 3000);
}

#[test]
fn init_sapi_globals_rejects_embedded_terminators() {
    let fs = FsSnapshot::new(vec![b"/index.php".to_vec()]);
    let (_head_rx, _body_rx, sender) = ContextSender::receiver();
    let stream = Stream::new(
        SocketAddress { ip: b"127.0.0.1".to_vec(), port: 3000 },
        SocketAddress { ip: b"127.0.0.1".to_vec(), port: 41000 },
    );
    let request = HttpRequest {
        method: b"GET".to_vec(),
        uri_path: b"/foo".to_vec(),
        query: Some(b"a\0b".to_vec()),
        version: HttpVersion::Http11,
        headers: vec![],
        body: Vec::new(),
    };
    let ctx = Context::new(b"/www".to_vec(), &fs, stream, request, sender, 1);
    assert!(matches!(
        init_sapi_globals(&ctx),
        Err(ExecutePhpError::InitSapiGlobalsError)
    ));
}
