use vstd::prelude::*;
use crate::context::ContextDir;
use crate::http::{
    Body, Header, Method, MultipartParam, Param, body_arg, body_has_bytes, header_arg,
    method_args, multipart_arg, param_escaped, single_quoted,
};
use crate::strings::{
    append_tokens, contains_char, has_char, push_char, push_text, push_token, same_text, text,
    views,
};

verus! {

/// The URL of a request, as it was written.
#[derive(Clone, Debug, Default)]
pub struct Url {
    pub raw: String,
}

impl Url {
    pub fn new(raw: &str) -> (r: Url)
        ensures
            r.raw@ == raw@,
    {
        Url { raw: text(raw) }
    }

    pub fn raw(&self) -> (r: String)
        ensures
            r@ == self.raw@,
    {
        self.raw.clone()
    }
}

/// A request to render.
#[derive(Clone, Debug, Default)]
pub struct RequestSpec {
    pub method: Method,
    pub url: Url,
    pub headers: Vec<Header>,
    pub querystring: Vec<Param>,
    pub form: Vec<Param>,
    pub multipart: Vec<MultipartParam>,
    pub body: Body,
    pub implicit_content_type: Option<String>,
}

/// Whether the request carries a payload: a multipart part, a form field or
/// a body byte.
pub open spec fn has_payload(r: RequestSpec) -> bool {
    r.multipart@.len() > 0 || r.form@.len() > 0 || body_has_bytes(r.body)
}

/// Whether a header is named exactly `name`.
pub open spec fn has_header(hs: Seq<Header>, name: Seq<char>) -> bool {
    exists|i: int| 0 <= i < hs.len() && (#[trigger] hs[i]).name@ == name
}

/// `--header` and its value, for every header in order.
pub open spec fn headers_args(hs: Seq<Header>) -> Seq<Seq<char>>
    decreases hs.len(),
{
    if hs.len() == 0 {
        seq![]
    } else {
        headers_args(hs.drop_last()) + seq!["--header"@, header_arg(hs.last())]
    }
}

/// The header that states the content type, where no header does.
pub open spec fn content_type_args(r: RequestSpec) -> Seq<Seq<char>> {
    if has_header(r.headers@, "Content-Type"@) {
        seq![]
    } else {
        match r.implicit_content_type {
            Some(ct) => if ct@ != "application/x-www-form-urlencoded"@ && ct@
                != "multipart/form-data"@ {
                seq!["--header"@, single_quoted("Content-Type: "@ + ct@)]
            } else {
                seq![]
            },
            None => if !body_has_bytes(r.body) {
                seq![]
            } else if r.body is Binary {
                seq!["--header"@, "'Content-Type: application/octet-stream'"@]
            } else {
                seq!["--header"@, "'Content-Type:'"@]
            },
        }
    }
}

/// `--data` and the quoted, encoded field, for every form field in order.
pub open spec fn form_args(ps: Seq<Param>) -> Seq<Seq<char>>
    decreases ps.len(),
{
    if ps.len() == 0 {
        seq![]
    } else {
        form_args(ps.drop_last()) + seq!["--data"@, single_quoted(param_escaped(ps.last()))]
    }
}

/// `--form` and the quoted part, for every multipart part in order.
pub open spec fn multipart_args(ps: Seq<MultipartParam>, root: Seq<char>) -> Seq<Seq<char>>
    decreases ps.len(),
{
    if ps.len() == 0 {
        seq![]
    } else {
        multipart_args(ps.drop_last(), root) + seq![
            "--form"@,
            single_quoted(multipart_arg(ps.last(), root)),
        ]
    }
}

/// The transfer option and the body's value, where the body holds a byte.
pub open spec fn body_args(b: Body, root: Seq<char>) -> Seq<Seq<char>> {
    if body_has_bytes(b) {
        seq![if b is File { "--data-binary"@ } else { "--data"@ }, body_arg(b, root)]
    } else {
        seq![]
    }
}

/// The encoded query parameters joined by `&`.
pub open spec fn query_string(ps: Seq<Param>) -> Seq<char>
    decreases ps.len(),
{
    if ps.len() == 0 {
        seq![]
    } else if ps.len() == 1 {
        param_escaped(ps[0])
    } else {
        query_string(ps.drop_last()) + seq!['&'] + param_escaped(ps.last())
    }
}

/// The full URL: the query string goes after `?`, or after `&` where the
/// URL already has a `?`.
pub open spec fn full_url(raw: Seq<char>, ps: Seq<Param>) -> Seq<char> {
    if ps.len() == 0 {
        raw
    } else if has_char(raw, '?') {
        raw + seq!['&'] + query_string(ps)
    } else {
        raw + seq!['?'] + query_string(ps)
    }
}

/// Every argument of the command line that sends `r`, files resolved under
/// `root`.
pub open spec fn request_args(r: RequestSpec, root: Seq<char>) -> Seq<Seq<char>> {
    method_args(r.method.0@, has_payload(r)) + headers_args(r.headers@) + content_type_args(r)
        + form_args(r.form@) + multipart_args(r.multipart@, root) + body_args(r.body, root)
        + seq![single_quoted(full_url(r.url.raw@, r.querystring@))]
}

/// Pushes `'s'`.
fn push_single_quoted(args: &mut Vec<String>, s: &str)
    ensures
        views(final(args)@) == views(old(args)@).push(single_quoted(s@)),
{
    let mut t = String::new();
    push_char(&mut t, '\'');
    push_text(&mut t, s);
    push_char(&mut t, '\'');
    assert(t@ =~= single_quoted(s@));
    push_token(args, t);
}

/// Whether one of the headers is named exactly `name`.
fn has_header_named(headers: &Vec<Header>, name: &str) -> (r: bool)
    ensures
        r == has_header(headers@, name@),
{
    let mut i: usize = 0;
    while i < headers.len()
        invariant
            i <= headers@.len(),
            forall|j: int| 0 <= j < i ==> (#[trigger] headers@[j]).name@ != name@,
        decreases headers@.len() - i,
    {
        if same_text(&headers[i].name, name) {
            return true;
        }
        i = i + 1;
    }
    false
}

/// The encoded query parameters joined by `&`.
fn build_query_string(ps: &Vec<Param>) -> (r: String)
    ensures
        r@ == query_string(ps@),
{
    let mut out = String::new();
    let mut i: usize = 0;
    while i < ps.len()
        invariant
            i <= ps@.len(),
            out@ == query_string(ps@.subrange(0, i as int)),
        decreases ps@.len() - i,
    {
        let ghost prev = ps@.subrange(0, i as int);
        if i > 0 {
            push_char(&mut out, '&');
        }
        let p = ps[i].curl_arg_escape();
        push_text(&mut out, p.as_str());
        proof {
            let next = ps@.subrange(0, i + 1);
            assert(next.drop_last() =~= prev);
            if i == 0 {
                assert(prev.len() == 0);
                assert(out@ =~= param_escaped(next[0]));
            } else {
                assert(out@ =~= query_string(prev) + seq!['&'] + param_escaped(next.last()));
            }
        }
        i = i + 1;
    }
    assert(ps@.subrange(0, ps@.len() as int) =~= ps@);
    out
}

impl RequestSpec {
    /// The arguments of a command line that sends this request, in order:
    /// method, headers, content type, form fields, multipart parts, body,
    /// and last the quoted URL.
    pub fn curl_args(&self, context_dir: &ContextDir) -> (r: Vec<String>)
        ensures
            views(r@) == request_args(*self, context_dir.file_root@),
    {
        let ghost root = context_dir.file_root@;
        let mut arguments: Vec<String> = Vec::new();
        let data = self.multipart.len() > 0 || self.form.len() > 0 || !self.body.is_empty();
        append_tokens(&mut arguments, self.method.curl_args(data));
        assert(views(arguments@) =~= method_args(self.method.0@, has_payload(*self)));
        let ghost after_method = views(arguments@);

        let mut i: usize = 0;
        while i < self.headers.len()
            invariant
                i <= self.headers@.len(),
                views(arguments@) == after_method + headers_args(self.headers@.subrange(0, i as int)),
            decreases self.headers@.len() - i,
        {
            append_tokens(&mut arguments, self.headers[i].curl_args());
            proof {
                let next = self.headers@.subrange(0, i + 1);
                assert(next.drop_last() =~= self.headers@.subrange(0, i as int));
            }
            i = i + 1;
        }
        assert(self.headers@.subrange(0, self.headers@.len() as int) =~= self.headers@);
        let ghost after_headers = views(arguments@);

        if !has_header_named(&self.headers, "Content-Type") {
            match &self.implicit_content_type {
                Some(content_type) => {
                    if !same_text(content_type, "application/x-www-form-urlencoded") && !same_text(
                        content_type,
                        "multipart/form-data",
                    ) {
                        push_token(&mut arguments, text("--header"));
                        let mut t = text("'Content-Type: ");
                        push_text(&mut t, content_type.as_str());
                        push_char(&mut t, '\'');
                        assert(t@ =~= single_quoted("Content-Type: "@ + content_type@)) by {
                            reveal_strlit("'Content-Type: ");
                            reveal_strlit("Content-Type: ");
                        }
                        push_token(&mut arguments, t);
                    }
                },
                None => {
                    if !self.body.is_empty() {
                        push_token(&mut arguments, text("--header"));
                        match &self.body {
                            Body::Binary(_) => push_token(
                                &mut arguments,
                                text("'Content-Type: application/octet-stream'"),
                            ),
                            _ => push_token(&mut arguments, text("'Content-Type:'")),
                        }
                    }
                },
            }
        }
        assert(views(arguments@) =~= after_headers + content_type_args(*self));
        let ghost after_content_type = views(arguments@);

        let mut i: usize = 0;
        while i < self.form.len()
            invariant
                i <= self.form@.len(),
                views(arguments@) == after_content_type + form_args(self.form@.subrange(0, i as int)),
            decreases self.form@.len() - i,
        {
            push_token(&mut arguments, text("--data"));
            let p = self.form[i].curl_arg_escape();
            push_single_quoted(&mut arguments, p.as_str());
            proof {
                let next = self.form@.subrange(0, i + 1);
                assert(next.drop_last() =~= self.form@.subrange(0, i as int));
            }
            i = i + 1;
            assert(views(arguments@) =~= after_content_type + form_args(
                self.form@.subrange(0, i as int),
            ));
        }
        assert(self.form@.subrange(0, self.form@.len() as int) =~= self.form@);
        let ghost after_form = views(arguments@);

        let mut i: usize = 0;
        while i < self.multipart.len()
            invariant
                i <= self.multipart@.len(),
                root == context_dir.file_root@,
                views(arguments@) == after_form + multipart_args(
                    self.multipart@.subrange(0, i as int),
                    root,
                ),
            decreases self.multipart@.len() - i,
        {
            push_token(&mut arguments, text("--form"));
            let p = self.multipart[i].curl_arg(context_dir);
            push_single_quoted(&mut arguments, p.as_str());
            proof {
                let next = self.multipart@.subrange(0, i + 1);
                assert(next.drop_last() =~= self.multipart@.subrange(0, i as int));
            }
            i = i + 1;
            assert(views(arguments@) =~= after_form + multipart_args(
                self.multipart@.subrange(0, i as int),
                root,
            ));
        }
        assert(self.multipart@.subrange(0, self.multipart@.len() as int) =~= self.multipart@);
        let ghost after_multipart = views(arguments@);

        if !self.body.is_empty() {
            let option = match &self.body {
                Body::File(_, _) => text("--data-binary"),
                _ => text("--data"),
            };
            push_token(&mut arguments, option);
            push_token(&mut arguments, self.body.curl_arg(context_dir));
        }
        assert(views(arguments@) =~= after_multipart + body_args(self.body, root));
        let ghost after_body = views(arguments@);

        let raw = self.url.raw();
        let mut url = raw.clone();
        if self.querystring.len() > 0 {
            let querystring = build_query_string(&self.querystring);
            if contains_char(raw.as_str(), '?') {
                push_char(&mut url, '&');
            } else {
                push_char(&mut url, '?');
            }
            push_text(&mut url, querystring.as_str());
        }
        assert(url@ =~= full_url(self.url.raw@, self.querystring@));
        push_single_quoted(&mut arguments, url.as_str());
        assert(views(arguments@) =~= request_args(*self, root));
        arguments
    }
}

} // verus!
