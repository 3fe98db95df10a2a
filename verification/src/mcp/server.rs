//! The request-level rules of the server: which method a request names,
//! the initialize answer, and the framing of requests over HTTP.
use vstd::prelude::*;
use crate::json::Json;
use crate::mcp::error::McpError;
use crate::mcp::protocol::ServerInfo;
use crate::text::{
    chars_of, dec, decimal, eq_str, extend, extend_str, lower, lowercase_chars, parse_unsigned,
    parse_unsigned_max, string_from, string_of, trim, trim_of,
};

verus! {

/// A JSON-RPC method the server answers.
#[derive(Debug, Clone, Copy, PartialEq, Eq, Structural)]
pub enum Method {
    Initialize,
    ToolsList,
    ToolsCall,
    ResourcesList,
    ResourcesRead,
    Unknown,
}

/// The method named `m`.
pub open spec fn method_named(m: Seq<char>) -> Method {
    if m == "initialize"@ {
        Method::Initialize
    } else if m == "tools/list"@ {
        Method::ToolsList
    } else if m == "tools/call"@ {
        Method::ToolsCall
    } else if m == "resources/list"@ {
        Method::ResourcesList
    } else if m == "resources/read"@ {
        Method::ResourcesRead
    } else {
        Method::Unknown
    }
}

/// The method a request names.
pub fn method_of(name: &str) -> (m: Method)
    ensures
        m == method_named(name@),
{
    if eq_str(name, "initialize") {
        Method::Initialize
    } else if eq_str(name, "tools/list") {
        Method::ToolsList
    } else if eq_str(name, "tools/call") {
        Method::ToolsCall
    } else if eq_str(name, "resources/list") {
        Method::ResourcesList
    } else if eq_str(name, "resources/read") {
        Method::ResourcesRead
    } else {
        Method::Unknown
    }
}

/// The error for a method the server does not know.
pub fn method_not_found(name: &str) -> (e: McpError)
    ensures
        e matches McpError::JsonRpcError { details } && details@ == "Method not found: "@ + name@,
{
    let mut d = chars_of("Method not found: ");
    extend_str(&mut d, name);
    McpError::JsonRpcError { details: string_of(d.as_slice()) }
}

/// `{"jsonrpc": "2.0", "id": id, "result": result}`.
pub fn success_response(id: Json, result: Json) -> (r: Json)
    ensures
        r matches Json::Object(es) && es@.len() == 3 && es@[0].0@ == "jsonrpc"@ && (es@[0].1 matches Json::Str(v)
            && v@ == "2.0"@) && es@[1].0@ == "id"@ && es@[1].1 == id && es@[2].0@ == "result"@
            && es@[2].1 == result,
{
    let mut es: Vec<(String, Json)> = Vec::new();
    es.push((string_from("jsonrpc"), Json::Str(string_from("2.0"))));
    es.push((string_from("id"), id));
    es.push((string_from("result"), result));
    Json::Object(es)
}

/// The result of `initialize`: the protocol version, the tools and
/// resources capabilities, and the server's name and version.
pub fn initialize_result(info: &ServerInfo) -> (r: Json)
    ensures
        r matches Json::Object(es) && es@.len() == 3 && es@[0].0@ == "protocolVersion"@ && (es@[0].1 matches Json::Str(v)
            && v@ == "2024-11-05"@) && es@[1].0@ == "capabilities"@ && (es@[1].1 matches Json::Object(c)
            && c@.len() == 2 && c@[0].0@ == "tools"@ && (c@[0].1 matches Json::Object(t) && t@.len() == 0)
            && c@[1].0@ == "resources"@ && (c@[1].1 matches Json::Object(rs) && rs@.len() == 0))
            && es@[2].0@ == "serverInfo"@ && (es@[2].1 matches Json::Object(si) && si@.len() == 2
            && si@[0].0@ == "name"@ && (si@[0].1 matches Json::Str(nm) && nm@ == info.name@) && si@[1].0@
            == "version"@ && (si@[1].1 matches Json::Str(vr) && vr@ == info.version@)),
{
    let mut caps: Vec<(String, Json)> = Vec::new();
    caps.push((string_from("tools"), Json::Object(Vec::new())));
    caps.push((string_from("resources"), Json::Object(Vec::new())));
    let mut si: Vec<(String, Json)> = Vec::new();
    si.push((string_from("name"), Json::Str(info.name.clone())));
    si.push((string_from("version"), Json::Str(info.version.clone())));
    let mut es: Vec<(String, Json)> = Vec::new();
    es.push((string_from("protocolVersion"), Json::Str(string_from("2024-11-05"))));
    es.push((string_from("capabilities"), Json::Object(caps)));
    es.push((string_from("serverInfo"), Json::Object(si)));
    Json::Object(es)
}

/// `\r\n\r\n` begins at `i` in `b`.
pub open spec fn blank_line_at(b: Seq<u8>, i: int) -> bool {
    0 <= i && i + 4 <= b.len() && b[i] == 13 && b[i + 1] == 10 && b[i + 2] == 13 && b[i + 3] == 10
}

/// Where the header of an HTTP request ends: the first `\r\n\r\n`.
pub fn find_header_end(buffer: &[u8]) -> (r: Option<usize>)
    ensures
        match r {
            Some(i) => blank_line_at(buffer@, i as int) && forall|j: int| 0 <= j < i ==> !blank_line_at(buffer@, j),
            None => forall|j: int| !blank_line_at(buffer@, j),
        },
{
    let n = buffer.len();
    if n < 4 {
        return None;
    }
    let mut i: usize = 0;
    while i < n - 3
        invariant
            n == buffer@.len(),
            n >= 4,
            i <= n - 3,
            forall|j: int| 0 <= j < i ==> !blank_line_at(buffer@, j),
        decreases n - i,
    {
        if buffer[i] == 13 && buffer[i + 1] == 10 && buffer[i + 2] == 13 && buffer[i + 3] == 10 {
            return Some(i);
        }
        i = i + 1;
    }
    None
}

/// What an HTTP request asks for.
#[derive(Debug, Clone, Copy, PartialEq, Eq, Structural)]
pub enum Route {
    /// `GET /health`.
    Health,
    /// `POST /mcp`.
    Mcp,
    /// Anything else.
    NotFound,
}

/// The route of a request line's method and path.
pub fn route(method: &str, path: &str) -> (r: Route)
    ensures
        r == if method@ == "GET"@ && path@ == "/health"@ {
            Route::Health
        } else if method@ == "POST"@ && path@ == "/mcp"@ {
            Route::Mcp
        } else {
            Route::NotFound
        },
{
    if eq_str(method, "GET") && eq_str(path, "/health") {
        Route::Health
    } else if eq_str(method, "POST") && eq_str(path, "/mcp") {
        Route::Mcp
    } else {
        Route::NotFound
    }
}

/// The reason phrase of an HTTP status.
pub open spec fn reason_phrase(status: u16) -> Seq<char> {
    if status == 200 {
        "OK"@
    } else if status == 400 {
        "Bad Request"@
    } else if status == 404 {
        "Not Found"@
    } else if status == 413 {
        "Payload Too Large"@
    } else {
        "Internal Server Error"@
    }
}

/// The status line and headers of an HTTP response.
pub fn http_head(status: u16, content_type: &str, body_len: usize) -> (r: String)
    ensures
        r@ == "HTTP/1.1 "@ + dec(status as nat) + " "@ + reason_phrase(status) + "\r\nContent-Type: "@
            + content_type@ + "\r\nContent-Length: "@ + dec(body_len as nat)
            + "\r\nConnection: close\r\n\r\n"@,
{
    let reason = if status == 200 {
        "OK"
    } else if status == 400 {
        "Bad Request"
    } else if status == 404 {
        "Not Found"
    } else if status == 413 {
        "Payload Too Large"
    } else {
        "Internal Server Error"
    };
    let mut t = chars_of("HTTP/1.1 ");
    extend(&mut t, decimal(status as u64).as_slice());
    extend_str(&mut t, " ");
    extend_str(&mut t, reason);
    extend_str(&mut t, "\r\nContent-Type: ");
    extend_str(&mut t, content_type);
    extend_str(&mut t, "\r\nContent-Length: ");
    extend(&mut t, decimal(body_len as u64).as_slice());
    extend_str(&mut t, "\r\nConnection: close\r\n\r\n");
    string_of(t.as_slice())
}

/// ASCII lowercase of a character.
pub open spec fn ascii_lower(c: char) -> char {
    if 'A' <= c <= 'Z' {
        ((c as u32) + 32) as char
    } else {
        c
    }
}

/// `str::eq_ignore_ascii_case`.
pub open spec fn eq_ignore_ascii_case(a: Seq<char>, b: Seq<char>) -> bool {
    a.len() == b.len() && forall|i: int| 0 <= i < a.len() ==> ascii_lower(#[trigger] a[i]) == ascii_lower(b[i])
}

/// The length a header line declares: for a `Content-Length` line (any
/// case) whose value is a number.
pub open spec fn declared_length(line: Seq<char>) -> Option<nat> {
    match crate::text::first_occ(line, ":"@, 0) {
        None => None,
        Some(p) => if eq_ignore_ascii_case(line.take(p), "content-length"@) {
            parse_unsigned(trim(line.skip(p + 1)), usize::MAX as nat)
        } else {
            None
        },
    }
}

/// The first declared length among the lines `ls`.
pub open spec fn first_length(ls: Seq<Seq<char>>) -> Option<nat>
    decreases ls.len(),
{
    if ls.len() == 0 {
        None
    } else {
        match declared_length(ls[0]) {
            Some(n) => Some(n),
            None => first_length(ls.drop_first()),
        }
    }
}

fn lower_ascii(c: char) -> (r: char)
    ensures
        r == ascii_lower(c),
{
    if 'A' <= c && c <= 'Z' {
        ((c as u8) + 32) as char
    } else {
        c
    }
}

fn eq_ic(a: &[char], b: &str) -> (r: bool)
    ensures
        r == eq_ignore_ascii_case(a@, b@),
{
    let bc = chars_of(b);
    if a.len() != bc.len() {
        return false;
    }
    let mut i: usize = 0;
    while i < a.len()
        invariant
            a@.len() == bc@.len(),
            bc@ == b@,
            i <= a@.len(),
            forall|j: int| 0 <= j < i ==> ascii_lower(#[trigger] a@[j]) == ascii_lower(bc@[j]),
        decreases a@.len() - i,
    {
        if lower_ascii(a[i]) != lower_ascii(bc[i]) {
            return false;
        }
        i = i + 1;
    }
    true
}

/// The body length an HTTP header declares, 0 when it declares none.
pub fn content_length(header: &str) -> (n: usize)
    ensures
        n == match first_length(crate::text::lines_of(header@)) {
            Some(v) => v,
            None => 0,
        },
{
    let ls = crate::text::lines(chars_of(header).as_slice());
    let ghost lv = crate::text::views(ls@);
    let colon = chars_of(":");
    let mut i: usize = 0;
    proof {
        assert(lv.skip(0) =~= lv);
        reveal_strlit(":");
    }
    while i < ls.len()
        invariant
            i <= ls@.len(),
            lv == crate::text::views(ls@),
            lv == crate::text::lines_of(header@),
            colon@ == ":"@,
            first_length(lv) == first_length(lv.skip(i as int)),
        decreases ls@.len() - i,
    {
        let line = ls[i].as_slice();
        proof {
            assert(lv.skip(i as int)[0] == line@);
            assert(lv.skip(i as int).drop_first() =~= lv.skip(i + 1));
        }
        match crate::text::find_first(line, colon.as_slice()) {
            Some(p) => {
                proof {
                    reveal_strlit(":");
                    crate::text::lemma_first_occ(line@, ":"@, 0);
                    assert(colon@ == ":"@);
                    assert(crate::text::first_occ(line@, colon@, 0) is Some);
                    let k = crate::text::first_occ(line@, colon@, 0).unwrap();
                    assert(k == p);
                    assert(crate::text::occurs_at(line@, ":"@, p as int));
                }
                let ln = line.len();
                assert(p < ln);
                let name = crate::text::slice_copy(line, 0, p);
                if eq_ic(name.as_slice(), "content-length") {
                    let value = crate::text::slice_copy(line, p + 1, ln);
                    let tv = trim_of(value.as_slice());
                    proof {
                        assert(name@ =~= line@.take(p as int));
                        assert(value@ =~= line@.skip(p + 1));
                    }
                    match parse_unsigned_max(tv.as_slice(), usize::MAX as u64) {
                        Some(v) => {
                            proof {
                                assert(declared_length(line@) == Some(v as nat));
                                assert(first_length(lv.skip(i as int)) == Some(v as nat));
                            }
                            return v as usize;
                        },
                        None => {},
                    }
                } else {
                    proof {
                        assert(name@ =~= line@.take(p as int));
                    }
                }
            },
            None => {},
        }
        i = i + 1;
    }
    proof {
        assert(lv.skip(i as int) =~= Seq::<Seq<char>>::empty());
    }
    0
}

} // verus!
