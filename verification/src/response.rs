use vstd::prelude::*;

verus! {

/// URN identifying the bad-request problem category.
pub const TYPE_BAD_REQUEST: &'static str = "urn:agnx:problem:bad-request";

/// URN identifying the internal-error problem category.
pub const TYPE_INTERNAL_ERROR: &'static str = "urn:agnx:problem:internal-error";

/// URN identifying the not-found problem category.
pub const TYPE_NOT_FOUND: &'static str = "urn:agnx:problem:not-found";

/// Media type of every problem response body.
pub const CONTENT_TYPE_PROBLEM_JSON: &'static str = "application/problem+json";

/// RFC 7807 problem details value: the one failure channel of every handler.
#[derive(Debug, Clone)]
pub struct ProblemDetails {
    pub type_uri: String,
    pub title: String,
    pub status: u16,
    pub detail: Option<String>,
    pub instance: Option<String>,
}

/// Mathematical shape of a problem details value.
pub ghost struct ProblemModel {
    pub type_uri: Seq<char>,
    pub title: Seq<char>,
    pub status: u16,
    pub detail: Option<Seq<char>>,
    pub instance: Option<Seq<char>>,
}

impl View for ProblemDetails {
    type V = ProblemModel;

    open spec fn view(&self) -> ProblemModel {
        ProblemModel {
            type_uri: self.type_uri@,
            title: self.title@,
            status: self.status,
            detail: match self.detail {
                Some(d) => Some(d@),
                None => None,
            },
            instance: match self.instance {
                Some(i) => Some(i@),
                None => None,
            },
        }
    }
}

/// The problem value with its `type` replaced.
pub open spec fn spec_with_type(p: ProblemModel, t: Seq<char>) -> ProblemModel {
    ProblemModel { type_uri: t, ..p }
}

/// The problem value with its `detail` set.
pub open spec fn spec_with_detail(p: ProblemModel, d: Seq<char>) -> ProblemModel {
    ProblemModel { detail: Some(d), ..p }
}

/// The problem value with its `instance` set.
pub open spec fn spec_with_instance(p: ProblemModel, i: Seq<char>) -> ProblemModel {
    ProblemModel { instance: Some(i), ..p }
}

/// The problem value with its `status` replaced.
pub open spec fn spec_with_status(p: ProblemModel, s: u16) -> ProblemModel {
    ProblemModel { status: s, ..p }
}

/// The status the transport layer actually uses for a stored status value.
/// http's StatusCode accepts exactly the codes in 100..=999; anything else
/// is coerced to 500 before responding.
pub open spec fn spec_effective_status(s: u16) -> u16 {
    if 100 <= s && s <= 999 {
        s
    } else {
        500u16
    }
}

/// Clamps a stored status value to the code the transport will use.
pub fn effective_status(s: u16) -> (r: u16)
    ensures
        r == spec_effective_status(s),
{
    if s >= 100 && s <= 999 {
        s
    } else {
        500
    }
}

/// The character a base-16 digit prints as.
pub open spec fn digit_char(d: int) -> char {
    if d == 0 { '0' }
    else if d == 1 { '1' }
    else if d == 2 { '2' }
    else if d == 3 { '3' }
    else if d == 4 { '4' }
    else if d == 5 { '5' }
    else if d == 6 { '6' }
    else if d == 7 { '7' }
    else if d == 8 { '8' }
    else if d == 9 { '9' }
    else if d == 10 { 'a' }
    else if d == 11 { 'b' }
    else if d == 12 { 'c' }
    else if d == 13 { 'd' }
    else if d == 14 { 'e' }
    else if d == 15 { 'f' }
    else { '?' }
}

/// One digit as text.
fn digit_str(d: u8) -> (r: &'static str)
    requires
        d < 16,
    ensures
        r@ == seq![digit_char(d as int)],
{
    proof {
        reveal_strlit("0");
        reveal_strlit("1");
        reveal_strlit("2");
        reveal_strlit("3");
        reveal_strlit("4");
        reveal_strlit("5");
        reveal_strlit("6");
        reveal_strlit("7");
        reveal_strlit("8");
        reveal_strlit("9");
        reveal_strlit("a");
        reveal_strlit("b");
        reveal_strlit("c");
        reveal_strlit("d");
        reveal_strlit("e");
        reveal_strlit("f");
    }
    let r: &'static str = match d {
        0 => "0",
        1 => "1",
        2 => "2",
        3 => "3",
        4 => "4",
        5 => "5",
        6 => "6",
        7 => "7",
        8 => "8",
        9 => "9",
        10 => "a",
        11 => "b",
        12 => "c",
        13 => "d",
        14 => "e",
        _ => "f",
    };
    proof {
        assert(r@ =~= seq![digit_char(d as int)]);
    }
    r
}

/// How one character appears inside a JSON string literal: quote, backslash
/// and control characters are escaped, everything else stands as itself.
pub open spec fn json_escape_char(c: char) -> Seq<char> {
    if c == '"' { seq!['\\', '"'] }
    else if c == '\\' { seq!['\\', '\\'] }
    else if c == '\n' { seq!['\\', 'n'] }
    else if c == '\r' { seq!['\\', 'r'] }
    else if c == '\t' { seq!['\\', 't'] }
    else if (c as u32) < 32 {
        seq!['\\', 'u', '0', '0', digit_char(((c as u32) / 16) as int), digit_char(
            ((c as u32) % 16) as int,
        )]
    } else { seq![c] }
}

/// How a whole string appears inside a JSON string literal.
pub open spec fn json_escaped(s: Seq<char>) -> Seq<char>
    decreases s.len(),
{
    if s.len() == 0 {
        Seq::empty()
    } else {
        json_escaped(s.drop_last()) + json_escape_char(s.last())
    }
}

/// Appends the JSON-escaped form of `s` to `out`.
fn append_escaped(out: &mut String, s: &str)
    ensures
        final(out)@ == old(out)@ + json_escaped(s@),
{
    let n: usize = s.unicode_len();
    let mut i: usize = 0;
    while i < n
        invariant
            n == s@.len(),
            i <= n,
            out@ == old(out)@ + json_escaped(s@.subrange(0, i as int)),
        decreases n - i,
    {
        let c = s.get_char(i);
        if c == '"' {
            out.append("\\\"");
            proof {
                reveal_strlit("\\\"");
                assert(("\\\"")@ =~= seq!['\\', '"']);
            }
        } else if c == '\\' {
            out.append("\\\\");
            proof {
                reveal_strlit("\\\\");
                assert(("\\\\")@ =~= seq!['\\', '\\']);
            }
        } else if c == '\n' {
            out.append("\\n");
            proof {
                reveal_strlit("\\n");
                assert(("\\n")@ =~= seq!['\\', 'n']);
            }
        } else if c == '\r' {
            out.append("\\r");
            proof {
                reveal_strlit("\\r");
                assert(("\\r")@ =~= seq!['\\', 'r']);
            }
        } else if c == '\t' {
            out.append("\\t");
            proof {
                reveal_strlit("\\t");
                assert(("\\t")@ =~= seq!['\\', 't']);
            }
        } else if (c as u32) < 32 {
            let code: u32 = c as u32;
            let hi: u8 = (code / 16) as u8;
            let lo: u8 = (code % 16) as u8;
            out.append("\\u00");
            out.append(digit_str(hi));
            out.append(digit_str(lo));
            proof {
                reveal_strlit("\\u00");
                assert(("\\u00")@ =~= seq!['\\', 'u', '0', '0']);
                assert(out@ =~= old(out)@ + json_escaped(s@.subrange(0, i as int))
                    + json_escape_char(c));
            }
        } else {
            let piece = s.substring_char(i, i + 1);
            out.append(piece);
            proof {
                assert(piece@ =~= seq![c]);
            }
        }
        proof {
            let post = s@.subrange(0, i as int + 1);
            assert(post.drop_last() =~= s@.subrange(0, i as int));
            assert(post.last() == s@[i as int]);
            assert(out@ =~= old(out)@ + json_escaped(post));
        }
        i = i + 1;
    }
    proof {
        assert(s@.subrange(0, n as int) =~= s@);
    }
}

/// The three digits a status code in 100..=999 prints as.
pub open spec fn dec3(s: u16) -> Seq<char> {
    seq![
        digit_char(((s as int) / 100) % 10),
        digit_char(((s as int) / 10) % 10),
        digit_char((s as int) % 10),
    ]
}

/// Appends the decimal form of a status code to `out`.
fn append_status(out: &mut String, s: u16)
    requires
        100 <= s <= 999,
    ensures
        final(out)@ == old(out)@ + dec3(s),
{
    let d0: u8 = ((s / 100) % 10) as u8;
    let d1: u8 = ((s / 10) % 10) as u8;
    let d2: u8 = (s % 10) as u8;
    out.append(digit_str(d0));
    out.append(digit_str(d1));
    out.append(digit_str(d2));
    proof {
        assert(out@ =~= old(out)@ + dec3(s));
    }
}

/// The exact serialized body of a problem value: the `type`, `title` and
/// `status` members always present, `detail` and `instance` present exactly
/// when set — never emitted as null.
pub open spec fn problem_body(p: ProblemModel) -> Seq<char> {
    "{\"type\":\""@ + json_escaped(p.type_uri) + "\",\"title\":\""@ + json_escaped(p.title)
        + "\",\"status\":"@ + dec3(p.status) + (match p.detail {
        Some(d) => ",\"detail\":\""@ + json_escaped(d) + "\""@,
        None => Seq::<char>::empty(),
    }) + (match p.instance {
        Some(i) => ",\"instance\":\""@ + json_escaped(i) + "\""@,
        None => Seq::<char>::empty(),
    }) + "}"@
}

impl ProblemDetails {
    /// A fresh problem value of a given status and title, with the RFC 7807
    /// default `type` of "about:blank" and nothing else set.
    pub fn new(status: u16, title: &str) -> (r: Self)
        ensures
            r@.type_uri == "about:blank"@,
            r@.title == title@,
            r@.status == status,
            r@.detail is None,
            r@.instance is None,
    {
        ProblemDetails {
            type_uri: String::from_str("about:blank"),
            title: String::from_str(title),
            status,
            detail: None,
            instance: None,
        }
    }

    /// The same value with its `type` replaced; a pure refinement.
    pub fn with_type(self, type_uri: &str) -> (r: Self)
        ensures
            r@ == spec_with_type(self@, type_uri@),
    {
        ProblemDetails { type_uri: String::from_str(type_uri), ..self }
    }

    /// The same value with its `detail` set; a pure refinement.
    pub fn with_detail(self, detail: &str) -> (r: Self)
        ensures
            r@ == spec_with_detail(self@, detail@),
    {
        ProblemDetails { detail: Some(String::from_str(detail)), ..self }
    }

    /// The same value with its `instance` set; a pure refinement.
    pub fn with_instance(self, instance: &str) -> (r: Self)
        ensures
            r@ == spec_with_instance(self@, instance@),
    {
        ProblemDetails { instance: Some(String::from_str(instance)), ..self }
    }

    /// Serializes the value as its problem body; the stored status must
    /// already be one the transport can carry.
    fn render_body(&self) -> (r: String)
        requires
            100 <= self.status <= 999,
        ensures
            r@ == problem_body(self@),
    {
        let mut out = String::from_str("{\"type\":\"");
        append_escaped(&mut out, self.type_uri.as_str());
        out.append("\",\"title\":\"");
        append_escaped(&mut out, self.title.as_str());
        out.append("\",\"status\":");
        append_status(&mut out, self.status);
        match &self.detail {
            Some(d) => {
                out.append(",\"detail\":\"");
                append_escaped(&mut out, d.as_str());
                out.append("\"");
            },
            None => {},
        }
        match &self.instance {
            Some(i) => {
                out.append(",\"instance\":\"");
                append_escaped(&mut out, i.as_str());
                out.append("\"");
            },
            None => {},
        }
        out.append("}");
        proof {
            assert(out@ =~= problem_body(self@));
        }
        out
    }

    /// What the transport sends for this value: the actual status code, the
    /// problem media type, and the body whose `status` member is re-derived
    /// from that actual code, so the two can never diverge.
    pub fn into_response_parts(self) -> (r: (u16, String, String))
        ensures
            r.0 == spec_effective_status(self@.status),
            r.1@ == CONTENT_TYPE_PROBLEM_JSON@,
            r.2@ == problem_body(spec_with_status(self@, spec_effective_status(self@.status))),
    {
        let status = effective_status(self.status);
        let pd = ProblemDetails {
            type_uri: self.type_uri,
            title: self.title,
            status,
            detail: self.detail,
            instance: self.instance,
        };
        let body = pd.render_body();
        (status, String::from_str(CONTENT_TYPE_PROBLEM_JSON), body)
    }
}

/// A problem value for a malformed request: status 400, its fixed title and
/// type URN, and the given detail.
pub fn bad_request(detail: &str) -> (r: ProblemDetails)
    ensures
        r@.type_uri == TYPE_BAD_REQUEST@,
        r@.title == "Bad Request"@,
        r@.status == 400,
        r@.detail == Some(detail@),
        r@.instance is None,
{
    ProblemDetails::new(400, "Bad Request").with_type(TYPE_BAD_REQUEST).with_detail(detail)
}

/// A problem value for a missing resource: status 404, its fixed title and
/// type URN, and the given detail.
pub fn not_found(detail: &str) -> (r: ProblemDetails)
    ensures
        r@.type_uri == TYPE_NOT_FOUND@,
        r@.title == "Not Found"@,
        r@.status == 404,
        r@.detail == Some(detail@),
        r@.instance is None,
{
    ProblemDetails::new(404, "Not Found").with_type(TYPE_NOT_FOUND).with_detail(detail)
}

/// A problem value for an internal fault: status 500, its fixed title and
/// type URN, and the given detail.
pub fn internal_error(detail: &str) -> (r: ProblemDetails)
    ensures
        r@.type_uri == TYPE_INTERNAL_ERROR@,
        r@.title == "Internal Server Error"@,
        r@.status == 500,
        r@.detail == Some(detail@),
        r@.instance is None,
{
    ProblemDetails::new(500, "Internal Server Error").with_type(TYPE_INTERNAL_ERROR).with_detail(
        detail,
    )
}

/// The builder refinements assign independent fields: applying `with_type`,
/// `with_detail` and `with_instance` in any order yields the same value.
pub proof fn lemma_builder_order_independent(
    p: ProblemModel,
    t: Seq<char>,
    d: Seq<char>,
    i: Seq<char>,
)
    ensures
        spec_with_instance(spec_with_detail(spec_with_type(p, t), d), i) == spec_with_detail(
            spec_with_instance(spec_with_type(p, t), i),
            d,
        ),
        spec_with_instance(spec_with_detail(spec_with_type(p, t), d), i) == spec_with_instance(
            spec_with_type(spec_with_detail(p, d), t),
            i,
        ),
        spec_with_instance(spec_with_detail(spec_with_type(p, t), d), i) == spec_with_type(
            spec_with_instance(spec_with_detail(p, d), i),
            t,
        ),
        spec_with_instance(spec_with_detail(spec_with_type(p, t), d), i) == spec_with_detail(
            spec_with_type(spec_with_instance(p, i), t),
            d,
        ),
        spec_with_instance(spec_with_detail(spec_with_type(p, t), d), i) == spec_with_type(
            spec_with_detail(spec_with_instance(p, i), d),
            t,
        ),
{
}

} // verus!
