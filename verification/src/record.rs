use vstd::prelude::*;
use vstd::string::StringExecFns;

use crate::codec::push_char;

verus! {

/// One extracted record: the entry's log index and content hash, always, and
/// one optional field per recognized certificate extension.
pub struct ExtensionRecord {
    pub log_index: u64,
    pub hash: String,
    pub subject: Option<String>,
    pub oidc_issuer: Option<String>,
    pub workflow_trigger: Option<String>,
    pub workflow_sha: Option<String>,
    pub workflow_name: Option<String>,
    pub workflow_repository: Option<String>,
    pub workflow_ref: Option<String>,
}

/// The mathematical content of an `ExtensionRecord`.
#[verifier::ext_equal]
pub struct RecordGhost {
    pub log_index: u64,
    pub hash: Seq<char>,
    pub subject: Option<Seq<char>>,
    pub oidc_issuer: Option<Seq<char>>,
    pub workflow_trigger: Option<Seq<char>>,
    pub workflow_sha: Option<Seq<char>>,
    pub workflow_name: Option<Seq<char>>,
    pub workflow_repository: Option<Seq<char>>,
    pub workflow_ref: Option<Seq<char>>,
}

impl View for ExtensionRecord {
    type V = RecordGhost;

    open spec fn view(&self) -> RecordGhost {
        RecordGhost {
            log_index: self.log_index,
            hash: self.hash@,
            subject: self.subject.deep_view(),
            oidc_issuer: self.oidc_issuer.deep_view(),
            workflow_trigger: self.workflow_trigger.deep_view(),
            workflow_sha: self.workflow_sha.deep_view(),
            workflow_name: self.workflow_name.deep_view(),
            workflow_repository: self.workflow_repository.deep_view(),
            workflow_ref: self.workflow_ref.deep_view(),
        }
    }
}

/// A hexadecimal digit, lower case.
pub open spec fn hex_digit(d: int) -> char {
    if d < 10 {
        ((48 + d) as u8) as char
    } else {
        ((87 + d) as u8) as char
    }
}

/// How one character is written inside a JSON string: quote and backslash
/// escaped, the common control characters by letter, the rest of the control
/// range numerically, anything else as itself.
pub open spec fn escape_char(c: char) -> Seq<char> {
    if c == '"' {
        seq!['\\', '"']
    } else if c == '\\' {
        seq!['\\', '\\']
    } else if c == '\n' {
        seq!['\\', 'n']
    } else if c == '\r' {
        seq!['\\', 'r']
    } else if c == '\t' {
        seq!['\\', 't']
    } else if (c as u32) < 32 {
        seq!['\\', 'u', '0', '0', hex_digit(c as u32 as int / 16), hex_digit(c as u32 as int % 16)]
    } else {
        seq![c]
    }
}

/// A whole text, escaped character by character.
pub open spec fn escaped(s: Seq<char>) -> Seq<char>
    decreases s.len(),
{
    if s.len() == 0 {
        Seq::empty()
    } else {
        escape_char(s[0]) + escaped(s.drop_first())
    }
}

/// A JSON string: the escaped text between quotes.
pub open spec fn quoted(s: Seq<char>) -> Seq<char> {
    seq!['"'] + escaped(s) + seq!['"']
}

/// An unsigned integer in decimal.
pub open spec fn dec_digits(n: int) -> Seq<char>
    recommends
        n >= 0,
    decreases n,
{
    if n < 10 {
        seq![((48 + n) as u8) as char]
    } else {
        dec_digits(n / 10) + seq![((48 + n % 10) as u8) as char]
    }
}

/// An optional record member: nothing when absent, else a comma, the quoted
/// key, a colon and the quoted value.
pub open spec fn opt_member(key: Seq<char>, v: Option<Seq<char>>) -> Seq<char> {
    match v {
        Some(s) => seq![','] + quoted(key) + seq![':'] + quoted(s),
        None => Seq::empty(),
    }
}

/// The one-line JSON form of a record: `LogIndex` and `Hash` always, then
/// each optional field that is present, in a fixed order.
pub open spec fn spec_render(r: RecordGhost) -> Seq<char> {
    "{\"LogIndex\":"@ + dec_digits(r.log_index as int) + ",\"Hash\":"@ + quoted(r.hash)
        + opt_member("Subject"@, r.subject) + opt_member("OIDCIssuer"@, r.oidc_issuer)
        + opt_member("GitHubWorkflowTrigger"@, r.workflow_trigger) + opt_member(
        "GitHubWorkflowSHA"@,
        r.workflow_sha,
    ) + opt_member("GitHubWorkflowName"@, r.workflow_name) + opt_member(
        "GitHubWorkflowRepository"@,
        r.workflow_repository,
    ) + opt_member("GitHubWorkflowRef"@, r.workflow_ref) + seq!['}']
}

/// Escaping distributes over splitting a text after its first `n` characters.
proof fn lemma_escaped_take_succ(s: Seq<char>, n: int)
    requires
        0 <= n < s.len(),
    ensures
        escaped(s.take(n + 1)) == escaped(s.take(n)) + escape_char(s[n]),
    decreases n,
{
    if n == 0 {
        assert(s.take(1).drop_first() =~= s.take(0));
        assert(escaped(s.take(0)) =~= Seq::empty());
        assert(escaped(s.take(1)) =~= escape_char(s[0]) + escaped(s.take(0)));
        assert(escaped(s.take(1)) =~= escaped(s.take(0)) + escape_char(s[0]));
    } else {
        lemma_escaped_take_succ(s.drop_first(), n - 1);
        assert(s.take(n + 1).drop_first() =~= s.drop_first().take(n));
        assert(s.take(n).drop_first() =~= s.drop_first().take(n - 1));
        assert(s.drop_first()[n - 1] == s[n]);
        assert(escaped(s.take(n + 1)) == escape_char(s[0]) + escaped(s.drop_first().take(n)));
        assert(escaped(s.take(n)) == escape_char(s[0]) + escaped(s.drop_first().take(n - 1)));
        assert(escaped(s.take(n + 1)) =~= escaped(s.take(n)) + escape_char(s[n]));
    }
}

/// One hexadecimal digit character.
fn hex_char(d: u32) -> (c: char)
    requires
        d < 16,
    ensures
        c == hex_digit(d as int),
{
    if d < 10 {
        (48 + d as u8) as char
    } else {
        (87 + d as u8) as char
    }
}

/// Appends one character in its escaped form.
fn append_escaped_char(out: &mut String, c: char)
    ensures
        final(out)@ == old(out)@ + escape_char(c),
{
    if c == '"' {
        push_char(out, '\\');
        push_char(out, '"');
    } else if c == '\\' {
        push_char(out, '\\');
        push_char(out, '\\');
    } else if c == '\n' {
        push_char(out, '\\');
        push_char(out, 'n');
    } else if c == '\r' {
        push_char(out, '\\');
        push_char(out, 'r');
    } else if c == '\t' {
        push_char(out, '\\');
        push_char(out, 't');
    } else if (c as u32) < 32 {
        push_char(out, '\\');
        push_char(out, 'u');
        push_char(out, '0');
        push_char(out, '0');
        push_char(out, hex_char((c as u32) / 16));
        push_char(out, hex_char((c as u32) % 16));
    } else {
        push_char(out, c);
    }
    proof {
        assert(final(out)@ =~= old(out)@ + escape_char(c));
    }
}

/// Appends a text in its escaped form.
fn append_escaped(out: &mut String, s: &str)
    ensures
        final(out)@ == old(out)@ + escaped(s@),
{
    let len: usize = s.unicode_len();
    let mut i: usize = 0;
    proof {
        assert(escaped(s@.take(0)) =~= Seq::empty());
        assert(out@ =~= out@ + escaped(s@.take(0)));
    }
    while i < len
        invariant
            0 <= i <= len,
            len == s@.len(),
            out@ == old(out)@ + escaped(s@.take(i as int)),
        decreases len - i,
    {
        let c = s.get_char(i);
        proof {
            lemma_escaped_take_succ(s@, i as int);
        }
        append_escaped_char(out, c);
        i = i + 1;
    }
    proof {
        assert(s@.take(len as int) =~= s@);
    }
}

/// Appends a JSON string: the escaped text between quotes.
fn append_quoted(out: &mut String, s: &str)
    ensures
        final(out)@ == old(out)@ + quoted(s@),
{
    push_char(out, '"');
    append_escaped(out, s);
    push_char(out, '"');
    proof {
        assert(final(out)@ =~= old(out)@ + quoted(s@));
    }
}

/// Appends an unsigned integer in decimal.
fn append_u64(out: &mut String, n: u64)
    ensures
        final(out)@ == old(out)@ + dec_digits(n as int),
    decreases n,
{
    if n >= 10 {
        append_u64(out, n / 10);
        push_char(out, (48 + (n % 10) as u8) as char);
        proof {
            assert(final(out)@ =~= old(out)@ + dec_digits(n as int));
        }
    } else {
        push_char(out, (48 + n as u8) as char);
        proof {
            assert(final(out)@ =~= old(out)@ + dec_digits(n as int));
        }
    }
}

/// Appends an optional member as `opt_member` states it.
fn append_opt_member(out: &mut String, key: &str, v: &Option<String>)
    ensures
        final(out)@ == old(out)@ + opt_member(key@, v.deep_view()),
{
    match v {
        Some(s) => {
            push_char(out, ',');
            append_quoted(out, key);
            push_char(out, ':');
            append_quoted(out, s.as_str());
            proof {
                assert(final(out)@ =~= old(out)@ + opt_member(key@, v.deep_view()));
            }
        }
        None => {
            proof {
                assert(final(out)@ =~= old(out)@ + opt_member(key@, v.deep_view()));
            }
        }
    }
}

/// Renders one record as a single self-contained JSON line, exactly as
/// `spec_render` states it.
pub fn render_record(rec: &ExtensionRecord) -> (r: String)
    ensures
        r@ == spec_render(rec@),
{
    let mut out: String = String::new();
    out.append("{\"LogIndex\":");
    append_u64(&mut out, rec.log_index);
    out.append(",\"Hash\":");
    append_quoted(&mut out, rec.hash.as_str());
    append_opt_member(&mut out, "Subject", &rec.subject);
    append_opt_member(&mut out, "OIDCIssuer", &rec.oidc_issuer);
    append_opt_member(&mut out, "GitHubWorkflowTrigger", &rec.workflow_trigger);
    append_opt_member(&mut out, "GitHubWorkflowSHA", &rec.workflow_sha);
    append_opt_member(&mut out, "GitHubWorkflowName", &rec.workflow_name);
    append_opt_member(&mut out, "GitHubWorkflowRepository", &rec.workflow_repository);
    append_opt_member(&mut out, "GitHubWorkflowRef", &rec.workflow_ref);
    push_char(&mut out, '}');
    proof {
        assert(out@ =~= spec_render(rec@));
    }
    out
}

} // verus!
