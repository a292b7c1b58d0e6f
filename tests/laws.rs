use hurl::context::ContextDir;
use hurl::encoding::encode_bytes;
use hurl::http::{Body, FileParam, Header, Method, MultipartParam, Param};
use hurl::request::{RequestSpec, Url};
use hurl::shell::{encode_shell_string, escape_string};

fn unescape(e: &str) -> String {
    let mut out = String::new();
    let mut chars = e.chars();
    while let Some(c) = chars.next() {
        if c == '\\' {
            match chars.next() {
                Some('n') => out.push('\n'),
                Some('t') => out.push('\t'),
                Some(other) => out.push(other),
                None => out.push('\\'),
            }
        } else {
            out.push(c);
        }
    }
    out
}

#[test]
fn plain_strings_are_single_quoted() {
    for s in ["", "hello world", "a\\b", "$HOME `x` \"q\"", "é ü"] {
        assert_eq!(encode_shell_string(s), format!("'{s}'"));
    }
}

#[test]
fn special_strings_round_trip() {
    for s in ["'", "a\tb", "line\nnext", "it's \\ here", "\\'"] {
        let q = encode_shell_string(s);
        assert!(q.starts_with("$'"));
        assert!(q.ends_with('\''));
        assert_eq!(unescape(&q[2..q.len() - 1]), s);
    }
}

#[test]
fn escape_tab_and_backslash() {
    assert_eq!(escape_string("a\tb\\c"), "a\\tb\\\\c");
    assert_eq!(encode_shell_string("a\tb"), "$'a\\tb'");
}

#[test]
fn quote_in_ansi_form() {
    assert_eq!(encode_shell_string("'"), "$'\\''");
    assert_eq!(encode_shell_string("\\'"), "$'\\\\\\''");
}

#[test]
fn url_encoding_keeps_alphanumerics() {
    let p = Param { name: "k".to_string(), value: "abcXYZ019".to_string() };
    assert_eq!(p.curl_arg_escape(), "k=abcXYZ019");
}

#[test]
fn url_encoding_output_charset() {
    let p = Param { name: "k".to_string(), value: "a b/c?d=é~_-.!*".to_string() };
    let r = p.curl_arg_escape();
    assert_eq!(r, "k=a%20b%2Fc%3Fd%3D%C3%A9%7E%5F%2D%2E%21%2A");
    assert!(r[2..].chars().all(|c| c.is_ascii_alphanumeric() || c == '%'));
}

#[test]
fn binary_body_bytes() {
    let ctx = ContextDir::default();
    assert_eq!(Body::Binary(vec![1, 2, 3]).curl_arg(&ctx), "$'\\x01\\x02\\x03'");
    assert_eq!(Body::Binary(vec![0, 0xab, 0xff]).curl_arg(&ctx), "$'\\x00\\xab\\xff'");
    assert_eq!(encode_bytes(&[]), "");
}

#[test]
fn head_method_always_head() {
    assert_eq!(Method("HEAD".to_string()).curl_args(false), vec!["--head".to_string()]);
    assert_eq!(Method("HEAD".to_string()).curl_args(true), vec!["--head".to_string()]);
    assert_eq!(
        Method("get".to_string()).curl_args(false),
        vec!["--request".to_string(), "get".to_string()]
    );
}

#[test]
fn header_with_quote_uses_ansi_form() {
    assert_eq!(
        Header::new("X-Name", "O'Brien").curl_args(),
        vec!["--header".to_string(), "$'X-Name: O\\'Brien'".to_string()]
    );
}

#[test]
fn query_appended_after_existing_question_mark() {
    let req = RequestSpec {
        method: Method("GET".to_string()),
        url: Url::new("http://localhost/q?x=1"),
        querystring: vec![Param { name: "y".to_string(), value: "2".to_string() }],
        ..Default::default()
    };
    assert_eq!(req.curl_args(&ContextDir::default()), vec!["'http://localhost/q?x=1&y=2'"]);
}

#[test]
fn get_with_body_names_method() {
    let req = RequestSpec {
        method: Method("GET".to_string()),
        url: Url::new("http://h/"),
        body: Body::Binary(vec![7]),
        ..Default::default()
    };
    assert_eq!(
        req.curl_args(&ContextDir::default()),
        vec![
            "--request",
            "GET",
            "--header",
            "'Content-Type: application/octet-stream'",
            "--data",
            "$'\\x07'",
            "'http://h/'"
        ]
    );
}

#[test]
fn implicit_content_type_header() {
    let req = RequestSpec {
        method: Method("PUT".to_string()),
        url: Url::new("http://h/"),
        body: Body::Text("{}".to_string()),
        implicit_content_type: Some("application/json".to_string()),
        ..Default::default()
    };
    assert_eq!(
        req.curl_args(&ContextDir::default()),
        vec![
            "--request",
            "PUT",
            "--header",
            "'Content-Type: application/json'",
            "--data",
            "'{}'",
            "'http://h/'"
        ]
    );
}

#[test]
fn multipart_parts_in_order() {
    let req = RequestSpec {
        method: Method("POST".to_string()),
        url: Url::new("http://h/upload"),
        multipart: vec![
            MultipartParam::Param(Param { name: "a".to_string(), value: "x y".to_string() }),
            MultipartParam::FileParam(FileParam {
                name: "f".to_string(),
                filename: "data.txt".to_string(),
                data: vec![],
                content_type: "text/plain".to_string(),
            }),
        ],
        implicit_content_type: Some("multipart/form-data".to_string()),
        ..Default::default()
    };
    assert_eq!(
        req.curl_args(&ContextDir::new("/work", "/files/")),
        vec![
            "--form",
            "'a=x y'",
            "--form",
            "'f=@/files/data.txt;type=text/plain'",
            "'http://h/upload'"
        ]
    );
}

#[test]
fn resolved_paths() {
    let ctx = ContextDir::new("/work", "/root");
    assert_eq!(ctx.resolved_path("a.bin"), "/root/a.bin");
    assert_eq!(ctx.resolved_path("/abs/a.bin"), "/abs/a.bin");
    assert_eq!(ContextDir::default().resolved_path("a.bin"), "a.bin");
}

#[test]
fn empty_body_is_no_body() {
    assert!(Body::Text(String::new()).is_empty());
    assert!(!Body::File(vec![1], "f".to_string()).is_empty());
    let req = RequestSpec {
        method: Method("POST".to_string()),
        url: Url::new("http://h/"),
        ..Default::default()
    };
    assert_eq!(req.curl_args(&ContextDir::default()), vec!["--request", "POST", "'http://h/'"]);
}
