use vstd::prelude::*;
use vstd::string::*;
use vstd::utf8::encode_utf8;
use crate::context::{ContextDir, joined_path};
use crate::encoding::{bytes_escaped, encode_bytes, escape_url, url_encoded};
use crate::shell::{encode_shell_string, shell_quoted};
use crate::strings::{push_char, push_text, push_token, same_text, text, views};

verus! {

/// An HTTP verb.
#[derive(Clone, Debug, Default)]
pub struct Method(pub String);

/// One request header.
#[derive(Clone, Debug)]
pub struct Header {
    pub name: String,
    pub value: String,
}

/// A name and a value, of a query string or of a form.
#[derive(Clone, Debug)]
pub struct Param {
    pub name: String,
    pub value: String,
}

/// A file sent as one part of a multipart form.
#[derive(Clone, Debug)]
pub struct FileParam {
    pub name: String,
    pub filename: String,
    pub data: Vec<u8>,
    pub content_type: String,
}

/// One part of a multipart form.
#[derive(Clone, Debug)]
pub enum MultipartParam {
    Param(Param),
    FileParam(FileParam),
}

/// The body of a request: text, raw bytes, or the bytes of a named file.
#[derive(Clone, Debug)]
pub enum Body {
    Text(String),
    Binary(Vec<u8>),
    File(Vec<u8>, String),
}

/// What `method` becomes on the command line; `data` tells whether the
/// request carries a payload.
pub open spec fn method_args(method: Seq<char>, data: bool) -> Seq<Seq<char>> {
    if method == "GET"@ {
        if data {
            seq!["--request"@, "GET"@]
        } else {
            seq![]
        }
    } else if method == "HEAD"@ {
        seq!["--head"@]
    } else if method == "POST"@ {
        if data {
            seq![]
        } else {
            seq!["--request"@, "POST"@]
        }
    } else {
        seq!["--request"@, method]
    }
}

/// The text `'s'`, in single quotes with nothing escaped.
pub open spec fn single_quoted(s: Seq<char>) -> Seq<char> {
    seq!['\''] + s + seq!['\'']
}

/// `name: value`, quoted for the shell.
pub open spec fn header_arg(h: Header) -> Seq<char> {
    shell_quoted(h.name@ + ": "@ + h.value@)
}

/// `name=value` with nothing encoded.
pub open spec fn param_plain(p: Param) -> Seq<char> {
    p.name@ + seq!['='] + p.value@
}

/// `name=value` with the value percent-encoded.
pub open spec fn param_escaped(p: Param) -> Seq<char> {
    p.name@ + seq!['='] + url_encoded(encode_utf8(p.value@))
}

/// The `--form` value of one multipart part, files resolved under `root`.
pub open spec fn multipart_arg(p: MultipartParam, root: Seq<char>) -> Seq<char> {
    match p {
        MultipartParam::Param(q) => param_plain(q),
        MultipartParam::FileParam(f) => f.name@ + seq!['=', '@'] + joined_path(root, f.filename@)
            + ";type="@ + f.content_type@,
    }
}

/// The value that carries a body, files resolved under `root`.
pub open spec fn body_arg(b: Body, root: Seq<char>) -> Seq<char> {
    match b {
        Body::Text(s) => shell_quoted(s@),
        Body::Binary(bs) => seq!['$', '\''] + bytes_escaped(bs@) + seq!['\''],
        Body::File(_, f) => single_quoted(seq!['@'] + joined_path(root, f@)),
    }
}

/// Whether a body holds at least one byte.
pub open spec fn body_has_bytes(b: Body) -> bool {
    match b {
        Body::Text(s) => s@.len() > 0,
        Body::Binary(bs) => bs@.len() > 0,
        Body::File(bs, _) => bs@.len() > 0,
    }
}

impl Method {
    /// The arguments that select this method; `data` tells whether the
    /// request carries a payload, which makes the client pick `POST` by
    /// itself.
    pub fn curl_args(&self, data: bool) -> (r: Vec<String>)
        ensures
            views(r@) == method_args(self.0@, data),
    {
        let mut args: Vec<String> = Vec::new();
        if same_text(&self.0, "GET") {
            if data {
                push_token(&mut args, text("--request"));
                push_token(&mut args, text("GET"));
            }
        } else if same_text(&self.0, "HEAD") {
            push_token(&mut args, text("--head"));
        } else if same_text(&self.0, "POST") {
            if !data {
                push_token(&mut args, text("--request"));
                push_token(&mut args, text("POST"));
            }
        } else {
            push_token(&mut args, text("--request"));
            push_token(&mut args, self.0.clone());
        }
        assert(views(args@) =~= method_args(self.0@, data));
        args
    }
}

impl Header {
    pub fn new(name: &str, value: &str) -> (r: Header)
        ensures
            r.name@ == name@,
            r.value@ == value@,
    {
        Header { name: text(name), value: text(value) }
    }

    /// `--header` and the quoted `name: value`.
    pub fn curl_args(&self) -> (r: Vec<String>)
        ensures
            views(r@) == seq!["--header"@, header_arg(*self)],
    {
        let mut line = self.name.clone();
        push_text(&mut line, ": ");
        push_text(&mut line, self.value.as_str());
        let mut args: Vec<String> = Vec::new();
        push_token(&mut args, text("--header"));
        push_token(&mut args, encode_shell_string(line.as_str()));
        assert(views(args@) =~= seq!["--header"@, header_arg(*self)]);
        args
    }
}

impl Param {
    /// `name=value`, the value percent-encoded.
    pub fn curl_arg_escape(&self) -> (r: String)
        ensures
            r@ == param_escaped(*self),
    {
        let value = escape_url(self.value.as_str());
        let mut out = self.name.clone();
        push_char(&mut out, '=');
        push_text(&mut out, value.as_str());
        out
    }

    /// `name=value`, as written.
    pub fn curl_arg(&self) -> (r: String)
        ensures
            r@ == param_plain(*self),
    {
        let mut out = self.name.clone();
        push_char(&mut out, '=');
        push_text(&mut out, self.value.as_str());
        out
    }
}

impl MultipartParam {
    /// The `--form` value of this part.
    pub fn curl_arg(&self, context_dir: &ContextDir) -> (r: String)
        ensures
            r@ == multipart_arg(*self, context_dir.file_root@),
    {
        match self {
            MultipartParam::Param(param) => param.curl_arg(),
            MultipartParam::FileParam(file) => {
                let path = context_dir.resolved_path(file.filename.as_str());
                let mut out = file.name.clone();
                push_char(&mut out, '=');
                push_char(&mut out, '@');
                push_text(&mut out, path.as_str());
                push_text(&mut out, ";type=");
                push_text(&mut out, file.content_type.as_str());
                out
            },
        }
    }
}

impl Body {
    /// Whether the body holds no byte.
    pub fn is_empty(&self) -> (r: bool)
        ensures
            r == !body_has_bytes(*self),
    {
        match self {
            Body::Text(s) => s.as_str().unicode_len() == 0,
            Body::Binary(bs) => bs.len() == 0,
            Body::File(bs, _) => bs.len() == 0,
        }
    }

    /// The value that carries this body on the command line.
    pub fn curl_arg(&self, context_dir: &ContextDir) -> (r: String)
        ensures
            r@ == body_arg(*self, context_dir.file_root@),
    {
        match self {
            Body::Text(s) => encode_shell_string(s.as_str()),
            Body::Binary(bytes) => {
                let mut out = String::new();
                push_char(&mut out, '$');
                push_char(&mut out, '\'');
                let escaped = encode_bytes(bytes.as_slice());
                push_text(&mut out, escaped.as_str());
                push_char(&mut out, '\'');
                out
            },
            Body::File(_, filename) => {
                let path = context_dir.resolved_path(filename.as_str());
                let mut out = String::new();
                push_char(&mut out, '\'');
                push_char(&mut out, '@');
                push_text(&mut out, path.as_str());
                push_char(&mut out, '\'');
                out
            },
        }
    }
}

impl Default for Body {
    fn default() -> (r: Body)
        ensures
            r matches Body::Text(s) && s@.len() == 0,
    {
        Body::Text(String::new())
    }
}

} // verus!
