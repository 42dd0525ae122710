use mapgate::grpc_gate::{
    ApiKeyMiddleware as GrpcMiddleware, ApiKeyMiddlewareLayer, PhantomMiddleware as GrpcPhantom,
    ReadOnlyKeyMiddleware as GrpcReadOnly,
};
use mapgate::http_gate::{
    ApiKeyGuard, ApiKeyMiddleware, FullApiKeyMiddleware, MasterKeyMiddleware,
    PhantomMiddleware as HttpPhantom, ReadOnlyKeyMiddleware as HttpReadOnly,
};
use mapgate::policy::{
    forbidden_grpc, forbidden_http, full_admits, header_is_text, master_admits, presents,
    read_only_admits, Action, Method, Request, Response,
};

fn key(text: &str) -> Option<Vec<u8>> {
    Some(text.as_bytes().to_vec())
}

fn http_rejection() -> Action {
    Action::Reject(Response {
        status: 403,
        headers: vec![],
        body: "Invalid api-key".to_string(),
    })
}

fn full_guard() -> ApiKeyGuard {
    ApiKeyGuard {
        master_key: Some("abc".to_string()),
        read_only_key: Some("xyz".to_string()),
    }
}

#[test]
fn full_gate_forwards_get_with_read_only_key() {
    let gate = full_guard().new_transform(());
    let request = Request::new(Method::Get, key("xyz"));
    assert_eq!(gate.middleware.call(&request), Action::Forward);
}

#[test]
fn full_gate_rejects_post_with_read_only_key() {
    let gate = full_guard().new_transform(());
    let request = Request::new(Method::Post, key("xyz"));
    assert_eq!(gate.middleware.call(&request), http_rejection());
}

#[test]
fn full_gate_forwards_post_with_master_key() {
    let gate = full_guard().new_transform(());
    let request = Request::new(Method::Post, key("abc"));
    assert_eq!(gate.middleware.call(&request), Action::Forward);
}

#[test]
fn read_only_gate_rejects_put_with_its_key() {
    let guard = ApiKeyGuard { master_key: None, read_only_key: Some("xyz".to_string()) };
    let gate = guard.new_transform(());
    let request = Request::new(Method::Put, key("xyz"));
    assert_eq!(gate.middleware.call(&request), http_rejection());
}

#[test]
fn phantom_gate_forwards_delete_without_header() {
    let guard = ApiKeyGuard { master_key: None, read_only_key: None };
    let gate = guard.new_transform(());
    let request = Request::new(Method::Delete, None);
    assert_eq!(gate.middleware.call(&request), Action::Forward);
}

#[test]
fn grpc_rejection_carries_status_headers() {
    let layer = ApiKeyMiddlewareLayer { master_key: Some("abc".to_string()), read_only_key: None };
    let gate = layer.layer(());
    let request = Request::new(Method::Post, key("nope"));
    let expected = Action::Reject(Response {
        status: 403,
        headers: vec![
            ("grpc-status".to_string(), "7".to_string()),
            ("grpc-message".to_string(), "Invalid api-key".to_string()),
        ],
        body: String::new(),
    });
    assert_eq!(gate.call(&request), expected);
}

fn grpc_rejection() -> Action {
    Action::Reject(Response {
        status: 403,
        headers: vec![
            ("grpc-status".to_string(), "7".to_string()),
            ("grpc-message".to_string(), "Invalid api-key".to_string()),
        ],
        body: String::new(),
    })
}

const METHODS: [Method; 10] = [
    Method::Get,
    Method::Head,
    Method::Post,
    Method::Put,
    Method::Delete,
    Method::Connect,
    Method::Options,
    Method::Trace,
    Method::Patch,
    Method::Other,
];

#[test]
fn only_get_is_a_read() {
    for method in METHODS {
        assert_eq!(method.is_safe(), method == Method::Get);
    }
}

#[test]
fn text_is_printable_ascii_or_tab() {
    assert!(header_is_text(b""));
    assert!(header_is_text(b"abc XYZ~!\t09"));
    assert!(!header_is_text(b"abc\n"));
    assert!(!header_is_text(&[b'a', 127]));
    assert!(!header_is_text(&[128, b'a']));
    assert!(!header_is_text(&[b'a', 0, b'b']));
    assert!(!header_is_text(&[31]));
    assert!(header_is_text(&[32, 126, 9]));
    for byte in 0..=255u8 {
        assert_eq!(header_is_text(&[byte]), (32..127).contains(&byte) || byte == 9);
    }
}

#[test]
fn a_request_presents_its_textual_header() {
    assert!(presents(&Request::new(Method::Get, key("abc")), "abc"));
    assert!(!presents(&Request::new(Method::Get, key("abd")), "abc"));
    assert!(!presents(&Request::new(Method::Get, key("ab")), "abc"));
    assert!(!presents(&Request::new(Method::Get, key("abcd")), "abc"));
    assert!(!presents(&Request::new(Method::Get, None), "abc"));
    assert!(!presents(&Request::new(Method::Get, None), ""));
    assert!(presents(&Request::new(Method::Get, key("")), ""));
}

#[test]
fn a_secret_that_is_no_text_is_never_presented() {
    let secret = "cl\u{e9}";
    let request = Request::new(Method::Get, Some(secret.as_bytes().to_vec()));
    assert!(!presents(&request, secret));
    assert!(!master_admits(secret, &request));
    let line = "a\nb";
    let request = Request::new(Method::Get, Some(line.as_bytes().to_vec()));
    assert!(!master_admits(line, &request));
}

#[test]
fn master_policy_admits_the_master_secret_on_every_method() {
    for method in METHODS {
        assert!(master_admits("abc", &Request::new(method, key("abc"))));
        assert!(!master_admits("abc", &Request::new(method, key("xyz"))));
        assert!(!master_admits("abc", &Request::new(method, None)));
    }
}

#[test]
fn read_only_policy_admits_its_secret_on_get_alone() {
    for method in METHODS {
        let admitted = read_only_admits("xyz", &Request::new(method, key("xyz")));
        assert_eq!(admitted, method == Method::Get);
        assert!(!read_only_admits("xyz", &Request::new(method, key("abc"))));
        assert!(!read_only_admits("xyz", &Request::new(method, None)));
    }
}

#[test]
fn full_policy_follows_its_table() {
    for method in METHODS {
        assert!(full_admits("abc", "xyz", &Request::new(method, key("abc"))));
        let as_reader = full_admits("abc", "xyz", &Request::new(method, key("xyz")));
        assert_eq!(as_reader, method == Method::Get);
        assert!(!full_admits("abc", "xyz", &Request::new(method, key("nope"))));
        assert!(!full_admits("abc", "xyz", &Request::new(method, None)));
        assert!(!full_admits("abc", "xyz", &Request::new(method, Some(vec![0xff]))));
    }
}

#[test]
fn equal_secrets_open_every_method() {
    let request = Request::new(Method::Post, key("abc"));
    assert!(full_admits("abc", "abc", &request));
}

#[test]
fn http_rejection_is_the_same_whatever_the_cause() {
    let gate = full_guard().new_transform(());
    let causes = [
        Request::new(Method::Get, None),
        Request::new(Method::Get, Some(vec![b'a', 0x80])),
        Request::new(Method::Get, key("wrong")),
        Request::new(Method::Post, key("xyz")),
    ];
    for request in causes {
        assert_eq!(gate.middleware.call(&request), http_rejection());
    }
    assert_eq!(forbidden_http(), Response {
        status: 403,
        headers: vec![],
        body: "Invalid api-key".to_string(),
    });
}

#[test]
fn master_guard_makes_the_master_middleware() {
    let guard = ApiKeyGuard { master_key: Some("abc".to_string()), read_only_key: None };
    let gate = guard.new_transform(17u32);
    assert_eq!(*gate.middleware.service(), 17);
    assert_eq!(gate.middleware.call(&Request::new(Method::Put, key("abc"))), Action::Forward);
    assert_eq!(gate.middleware.call(&Request::new(Method::Get, key("xyz"))), http_rejection());
    assert_eq!(gate.middleware.call(&Request::new(Method::Get, None)), http_rejection());
}

#[test]
fn full_guard_forwards_get_with_master_key() {
    let gate = full_guard().new_transform(());
    assert_eq!(gate.middleware.call(&Request::new(Method::Get, key("abc"))), Action::Forward);
}

#[test]
fn http_middlewares_decide_by_their_own_policy() {
    let full = FullApiKeyMiddleware {
        master_key: "abc".to_string(),
        read_only_key: "xyz".to_string(),
        service: 1u8,
    };
    assert_eq!(full.call(&Request::new(Method::Get, key("xyz"))), Action::Forward);
    assert_eq!(full.call(&Request::new(Method::Head, key("xyz"))), http_rejection());
    assert_eq!(*full.service(), 1);

    let master = MasterKeyMiddleware { master_key: "abc".to_string(), service: 2u8 };
    assert_eq!(master.call(&Request::new(Method::Delete, key("abc"))), Action::Forward);
    assert_eq!(master.call(&Request::new(Method::Delete, key("abC"))), http_rejection());
    assert_eq!(*master.service(), 2);

    let reader = HttpReadOnly { read_only_key: "xyz".to_string(), service: 3u8 };
    assert_eq!(reader.call(&Request::new(Method::Get, key("xyz"))), Action::Forward);
    assert_eq!(reader.call(&Request::new(Method::Options, key("xyz"))), http_rejection());
    assert_eq!(*reader.service(), 3);

    let open = HttpPhantom { service: 4u8 };
    assert_eq!(open.call(&Request::new(Method::Patch, Some(vec![0]))), Action::Forward);
    assert_eq!(*open.service(), 4);
}

#[test]
fn layer_selects_the_policy_by_the_secrets() {
    let secret = |text: &str| Some(text.to_string());
    let full = ApiKeyMiddlewareLayer { master_key: secret("abc"), read_only_key: secret("xyz") };
    assert!(matches!(
        full.layer(1u8),
        GrpcMiddleware::FullApiKeyMiddleware { master_key, read_only_key, service: 1 }
            if master_key == "abc" && read_only_key == "xyz"
    ));
    let master = ApiKeyMiddlewareLayer { master_key: secret("abc"), read_only_key: None };
    assert!(matches!(
        master.layer(2u8),
        GrpcMiddleware::MasterApiKeyMiddleware { master_key, service: 2 } if master_key == "abc"
    ));
    let reader = ApiKeyMiddlewareLayer { master_key: None, read_only_key: secret("xyz") };
    assert!(matches!(
        reader.layer(3u8),
        GrpcMiddleware::ReadOnlyApiKeyMiddleware { read_only_key, service: 3 }
            if read_only_key == "xyz"
    ));
    let open = ApiKeyMiddlewareLayer { master_key: None, read_only_key: None };
    assert!(matches!(open.layer(4u8), GrpcMiddleware::PhantomMiddleware { service: 4 }));
}

#[test]
fn grpc_gate_follows_the_same_table() {
    let layer = ApiKeyMiddlewareLayer {
        master_key: Some("abc".to_string()),
        read_only_key: Some("xyz".to_string()),
    };
    let gate = layer.layer(9u8);
    assert_eq!(*gate.service(), 9);
    assert_eq!(gate.call(&Request::new(Method::Get, key("xyz"))), Action::Forward);
    assert_eq!(gate.call(&Request::new(Method::Get, key("abc"))), Action::Forward);
    assert_eq!(gate.call(&Request::new(Method::Post, key("abc"))), Action::Forward);
    assert_eq!(gate.call(&Request::new(Method::Post, key("xyz"))), grpc_rejection());
    assert_eq!(gate.call(&Request::new(Method::Get, None)), grpc_rejection());

    let reader = ApiKeyMiddlewareLayer { master_key: None, read_only_key: Some("xyz".to_string()) }
        .layer(());
    assert_eq!(reader.call(&Request::new(Method::Get, key("xyz"))), Action::Forward);
    assert_eq!(reader.call(&Request::new(Method::Put, key("xyz"))), grpc_rejection());

    let open = ApiKeyMiddlewareLayer { master_key: None, read_only_key: None }.layer(());
    assert_eq!(open.call(&Request::new(Method::Delete, None)), Action::Forward);
    assert_eq!(forbidden_grpc(), Response {
        status: 403,
        headers: vec![
            ("grpc-status".to_string(), "7".to_string()),
            ("grpc-message".to_string(), "Invalid api-key".to_string()),
        ],
        body: String::new(),
    });
}

#[test]
fn grpc_middlewares_stand_on_their_own() {
    let open = GrpcPhantom { service: 5u8 };
    assert_eq!(open.call(&Request::new(Method::Delete, None)), Action::Forward);
    assert_eq!(*open.service(), 5);

    let reader = GrpcReadOnly { read_only_key: "xyz".to_string(), service: 6u8 };
    assert_eq!(reader.call(&Request::new(Method::Get, key("xyz"))), Action::Forward);
    assert_eq!(reader.call(&Request::new(Method::Post, key("xyz"))), grpc_rejection());
    assert_eq!(reader.call(&Request::new(Method::Get, key("xy"))), grpc_rejection());
    assert_eq!(*reader.service(), 6);
}
