//! The wire envelope: one JSON document per frame, carrying either a
//! keep-alive ping or an invocation with a target and an argument list.
//!
//! Decoding goes through the parsed JSON model; encoding renders the
//! canonical compact document directly, so the exact transmitted bytes
//! are pinned down by [`envelope_text`].

use vstd::prelude::*;
use vstd::string::{StrSliceExecFns, StringExecFns};

use crate::SessionError;
use crate::json::{
    JsonValue, JsonView, json_of, lemma_model_elems, lookup, lookup_spec, model_elems,
    model_members, parse_json, str_eq,
};
use crate::text::{chars_to_string, push_str_chars};

verus! {

/// The kind of a wire envelope; `1` on the wire for an invocation, `6`
/// for a ping.
#[derive(Clone, Copy, Debug, PartialEq, Eq, Structural)]
pub enum SocketMessageType {
    Invocation,
    Ping,
}

/// The named application event an invocation envelope carries.
#[derive(Clone, Copy, Debug, PartialEq, Eq, Structural)]
pub enum SocketMessageTarget {
    SubscriptionStatus,
    CommunicationChannels,
}

/// The message kind a wire code stands for, if any.
pub open spec fn kind_of_code(c: u64) -> Option<SocketMessageType> {
    if c == 1 {
        Some(SocketMessageType::Invocation)
    } else if c == 6 {
        Some(SocketMessageType::Ping)
    } else {
        None
    }
}

/// The wire name of an invocation target.
pub open spec fn target_name(t: SocketMessageTarget) -> Seq<char> {
    match t {
        SocketMessageTarget::SubscriptionStatus => "subscriptionStatus"@,
        SocketMessageTarget::CommunicationChannels => "communicationChannels"@,
    }
}

/// The invocation target a wire name stands for, if any.
pub open spec fn target_of_name(s: Seq<char>) -> Option<SocketMessageTarget> {
    if s == "subscriptionStatus"@ {
        Some(SocketMessageTarget::SubscriptionStatus)
    } else if s == "communicationChannels"@ {
        Some(SocketMessageTarget::CommunicationChannels)
    } else {
        None
    }
}

/// One wire envelope.  A ping carries neither target nor arguments; an
/// invocation carries both.
#[derive(Clone, Debug, PartialEq, Eq)]
pub struct SocketMessage {
    pub kind: SocketMessageType,
    pub target: Option<SocketMessageTarget>,
    pub arguments: Option<Vec<String>>,
}

/// The mathematical shape of an envelope: arguments as character
/// sequences.
pub struct EnvelopeView {
    pub kind: SocketMessageType,
    pub target: Option<SocketMessageTarget>,
    pub arguments: Option<Seq<Seq<char>>>,
}

impl View for SocketMessage {
    type V = EnvelopeView;

    open spec fn view(&self) -> EnvelopeView {
        EnvelopeView {
            kind: self.kind,
            target: self.target,
            arguments: match self.arguments {
                Some(a) => Some(a.deep_view()),
                None => None,
            },
        }
    }
}

/// The envelope invariant: target and arguments are mutually required,
/// present on an invocation and absent on a ping.
pub open spec fn wf_envelope(m: EnvelopeView) -> bool {
    match m.kind {
        SocketMessageType::Ping => m.target is None && m.arguments is None,
        SocketMessageType::Invocation => m.target is Some && m.arguments is Some,
    }
}

// ------------------------------------------------------------------
// Decoding: JSON structure to envelope.
// ------------------------------------------------------------------

/// All elements as strings, in order; `None` if any element is not a
/// string.
pub open spec fn strings_of(elems: Seq<JsonView>) -> Option<Seq<Seq<char>>>
    decreases elems.len(),
{
    if elems.len() == 0 {
        Some(Seq::empty())
    } else {
        match elems[0] {
            JsonView::Str(s) => match strings_of(elems.drop_first()) {
                Some(r) => Some(seq![s] + r),
                None => None,
            },
            _ => None,
        }
    }
}

/// The message kind named by the `type` binding: required, an integer,
/// and one of the known codes.
pub open spec fn kind_field(fields: Seq<(Seq<char>, JsonView)>) -> Result<
    SocketMessageType,
    SessionError,
> {
    match lookup_spec(fields, "type"@) {
        Some(JsonView::UInt(c)) => match kind_of_code(c) {
            Some(k) => Ok(k),
            None => Err(SessionError::Parse),
        },
        _ => Err(SessionError::Parse),
    }
}

/// The target named by the `target` binding: absent or null means none;
/// a known name selects the target; a name the client does not
/// recognize also means none, so such an invocation is ignorable
/// without aborting the batch; a non-string value is malformed.
pub open spec fn target_field(fields: Seq<(Seq<char>, JsonView)>) -> Result<
    Option<SocketMessageTarget>,
    SessionError,
> {
    match lookup_spec(fields, "target"@) {
        None => Ok(None),
        Some(JsonView::Null) => Ok(None),
        Some(JsonView::Str(s)) => Ok(target_of_name(s)),
        Some(_) => Err(SessionError::Parse),
    }
}

/// The argument list of the `arguments` binding: absent or null means
/// none; an array of strings is kept in order; anything else is
/// malformed.
pub open spec fn arguments_field(fields: Seq<(Seq<char>, JsonView)>) -> Result<
    Option<Seq<Seq<char>>>,
    SessionError,
> {
    match lookup_spec(fields, "arguments"@) {
        None => Ok(None),
        Some(JsonView::Null) => Ok(None),
        Some(JsonView::Arr(elems)) => match strings_of(elems) {
            Some(a) => Ok(Some(a)),
            None => Err(SessionError::Parse),
        },
        Some(_) => Err(SessionError::Parse),
    }
}

/// The envelope a parsed JSON document stands for, or a parse failure.
pub open spec fn envelope_of_json(v: JsonView) -> Result<EnvelopeView, SessionError> {
    match v {
        JsonView::Obj(fields) => match (kind_field(fields), target_field(fields), arguments_field(
            fields,
        )) {
            (Ok(k), Ok(t), Ok(a)) => Ok(EnvelopeView { kind: k, target: t, arguments: a }),
            _ => Err(SessionError::Parse),
        },
        _ => Err(SessionError::Parse),
    }
}

/// The envelope one frame's text stands for: the text must be one
/// well-formed JSON document of the envelope shape.
pub open spec fn envelope_of_text(s: Seq<char>) -> Result<EnvelopeView, SessionError> {
    match json_of(s) {
        Some(v) => envelope_of_json(v),
        None => Err(SessionError::Parse),
    }
}

/// If some element of `elems` is not a string, no string list matches.
proof fn lemma_strings_of_none(elems: Seq<JsonView>, i: int)
    requires
        0 <= i < elems.len(),
        !(elems[i] is Str),
    ensures
        strings_of(elems) is None,
    decreases elems.len(),
{
    if i > 0 {
        lemma_strings_of_none(elems.drop_first(), i - 1);
    }
}

/// Collects the elements of `a` from position `i` on as owned strings,
/// exactly when all of them are strings.
fn strings_from(a: &Vec<JsonValue>, i: usize) -> (r: Result<Vec<String>, SessionError>)
    requires
        i <= a.len(),
    ensures
        match r {
            Ok(out) => strings_of(model_elems(a@).skip(i as int)) == Some(out.deep_view()),
            Err(e) => strings_of(model_elems(a@).skip(i as int)) is None && e
                == SessionError::Parse,
        },
    decreases a.len() - i,
{
    proof {
        lemma_model_elems(a@);
    }
    let ghost elems = model_elems(a@).skip(i as int);
    if i == a.len() {
        let out: Vec<String> = Vec::new();
        proof {
            assert(elems.len() == 0);
            assert(out.deep_view() =~= Seq::<Seq<char>>::empty());
        }
        Ok(out)
    } else {
        proof {
            assert(elems[0] == model_elems(a@)[i as int]);
            assert(elems.drop_first() =~= model_elems(a@).skip(i + 1));
        }
        match &a[i] {
            JsonValue::Str(s) => {
                proof {
                    assert(a@[i as int]@ == JsonView::Str(s@));
                    assert(elems[0] == JsonView::Str(s@));
                }
                match strings_from(a, i + 1) {
                    Ok(mut rest) => {
                        let ghost rest_dv = rest.deep_view();
                        let ghost rest0 = rest@;
                        let mut out: Vec<String> = Vec::new();
                        let sc = s.clone();
                        out.push(sc);
                        out.append(&mut rest);
                        proof {
                            reveal_with_fuel(strings_of, 2);
                            assert(out@ =~= seq![sc] + rest0);
                            assert forall|j: int| 0 <= j < out@.len() implies out.deep_view()[j]
                                == (seq![s@] + rest_dv)[j] by {
                                if j == 0 {
                                    assert(out@[0] == sc);
                                    assert(sc@ == s@);
                                } else {
                                    assert(out@[j] == rest0[j - 1]);
                                    assert(rest_dv[j - 1] == rest0[j - 1]@);
                                }
                            }
                            assert(out.deep_view() =~= seq![s@] + rest_dv);
                            assert(strings_of(elems) == Some(seq![s@] + rest_dv));
                        }
                        Ok(out)
                    },
                    Err(e) => Err(e),
                }
            },
            _ => {
                proof {
                    assert(!(elems[0] is Str)) by {
                        let x = a@[i as int];
                        match x {
                            JsonValue::Str(_) => {
                                assert(false);
                            },
                            _ => {},
                        }
                    }
                    lemma_strings_of_none(elems, 0);
                }
                Err(SessionError::Parse)
            },
        }
    }
}

/// Decodes a parsed JSON document into an envelope, as
/// [`envelope_of_json`] says.
pub fn envelope_from_json(v: &JsonValue) -> (r: Result<SocketMessage, SessionError>)
    ensures
        match r {
            Ok(m) => envelope_of_json(v@) == Ok::<EnvelopeView, SessionError>(m@),
            Err(e) => envelope_of_json(v@) == Err::<EnvelopeView, SessionError>(e),
        },
{
    match v {
        JsonValue::Obj(fields) => {
            let ghost fm = model_members(fields@);
            let kind = match lookup(fields, "type") {
                Some(JsonValue::UInt(c)) => {
                    if *c == 1 {
                        SocketMessageType::Invocation
                    } else if *c == 6 {
                        SocketMessageType::Ping
                    } else {
                        return Err(SessionError::Parse);
                    }
                },
                _ => {
                    return Err(SessionError::Parse);
                },
            };
            let target = match lookup(fields, "target") {
                None => None,
                Some(JsonValue::Null) => None,
                Some(JsonValue::Str(s)) => {
                    if str_eq(s.as_str(), "subscriptionStatus") {
                        Some(SocketMessageTarget::SubscriptionStatus)
                    } else if str_eq(s.as_str(), "communicationChannels") {
                        Some(SocketMessageTarget::CommunicationChannels)
                    } else {
                        None
                    }
                },
                Some(_) => {
                    return Err(SessionError::Parse);
                },
            };
            let arguments = match lookup(fields, "arguments") {
                None => None,
                Some(JsonValue::Null) => None,
                Some(JsonValue::Arr(elems)) => {
                    match strings_from(elems, 0) {
                        Ok(out) => {
                            proof {
                                assert(model_elems(elems@).skip(0) =~= model_elems(elems@));
                            }
                            Some(out)
                        },
                        Err(e) => {
                            proof {
                                assert(model_elems(elems@).skip(0) =~= model_elems(elems@));
                            }
                            return Err(e);
                        },
                    }
                },
                Some(_) => {
                    return Err(SessionError::Parse);
                },
            };
            Ok(SocketMessage { kind, target, arguments })
        },
        _ => Err(SessionError::Parse),
    }
}

/// Decodes one frame's text into an envelope, as [`envelope_of_text`]
/// says.
pub fn decode_envelope(s: &str) -> (r: Result<SocketMessage, SessionError>)
    ensures
        match r {
            Ok(m) => envelope_of_text(s@) == Ok::<EnvelopeView, SessionError>(m@),
            Err(e) => envelope_of_text(s@) == Err::<EnvelopeView, SessionError>(e),
        },
{
    match parse_json(s) {
        Some(v) => envelope_from_json(&v),
        None => Err(SessionError::Parse),
    }
}

// ------------------------------------------------------------------
// Encoding: envelope to canonical text.
// ------------------------------------------------------------------

/// The lower-case hexadecimal digit for a value below sixteen.
pub open spec fn hex_char(n: u32) -> char {
    if n == 0 {
        '0'
    } else if n == 1 {
        '1'
    } else if n == 2 {
        '2'
    } else if n == 3 {
        '3'
    } else if n == 4 {
        '4'
    } else if n == 5 {
        '5'
    } else if n == 6 {
        '6'
    } else if n == 7 {
        '7'
    } else if n == 8 {
        '8'
    } else if n == 9 {
        '9'
    } else if n == 10 {
        'a'
    } else if n == 11 {
        'b'
    } else if n == 12 {
        'c'
    } else if n == 13 {
        'd'
    } else if n == 14 {
        'e'
    } else {
        'f'
    }
}

/// The JSON string escape of one character: quote and backslash get a
/// backslash, a control character becomes a four-digit escape (so no
/// terminator can survive inside an encoded frame), and every other
/// character stands for itself.
pub open spec fn esc_char(c: char) -> Seq<char> {
    if c == '"' {
        seq!['\\', '"']
    } else if c == '\\' {
        seq!['\\', '\\']
    } else if (c as u32) < 0x20 {
        seq!['\\', 'u', '0', '0', hex_char((c as u32) / 16), hex_char((c as u32) % 16)]
    } else {
        seq![c]
    }
}

/// The JSON string escape of a text.
pub open spec fn esc(s: Seq<char>) -> Seq<char>
    decreases s.len(),
{
    if s.len() == 0 {
        Seq::empty()
    } else {
        esc_char(s[0]) + esc(s.drop_first())
    }
}

/// Escaping distributes over appending one character.
pub proof fn lemma_esc_snoc(s: Seq<char>, c: char)
    ensures
        esc(s + seq![c]) == esc(s) + esc_char(c),
    decreases s.len(),
{
    reveal_with_fuel(esc, 3);
    if s.len() == 0 {
        assert((s + seq![c])[0] == c);
        assert((s + seq![c]).drop_first() =~= Seq::<char>::empty());
        assert(esc(s + seq![c]) =~= esc_char(c));
        assert(esc(s) + esc_char(c) =~= esc_char(c));
    } else {
        assert((s + seq![c])[0] == s[0]);
        assert((s + seq![c]).drop_first() =~= s.drop_first() + seq![c]);
        lemma_esc_snoc(s.drop_first(), c);
        assert(esc(s + seq![c]) =~= esc(s) + esc_char(c));
    }
}

/// A quoted, escaped JSON string literal.
pub open spec fn quoted(s: Seq<char>) -> Seq<char> {
    seq!['"'] + esc(s) + seq!['"']
}

/// The comma-separated rendering of an argument list's members.
pub open spec fn args_text(args: Seq<Seq<char>>) -> Seq<char>
    decreases args.len(),
{
    if args.len() == 0 {
        Seq::empty()
    } else if args.len() == 1 {
        quoted(args[0])
    } else {
        quoted(args[0]) + seq![','] + args_text(args.drop_first())
    }
}

/// The canonical compact wire text of a well-formed envelope: exactly
/// what [`encode_envelope`] emits, terminator excluded.
pub open spec fn envelope_text(m: EnvelopeView) -> Seq<char> {
    if m.kind is Ping {
        "{\"type\":6}"@
    } else {
        "{\"type\":1,\"target\":\""@ + target_name(m.target->0) + "\",\"arguments\":["@
            + args_text(m.arguments->0) + "]}"@
    }
}

/// The lower-case hexadecimal digit for a value below sixteen.
fn hex_digit(n: u32) -> (r: char)
    requires
        n < 16,
    ensures
        r == hex_char(n),
{
    if n == 0 {
        '0'
    } else if n == 1 {
        '1'
    } else if n == 2 {
        '2'
    } else if n == 3 {
        '3'
    } else if n == 4 {
        '4'
    } else if n == 5 {
        '5'
    } else if n == 6 {
        '6'
    } else if n == 7 {
        '7'
    } else if n == 8 {
        '8'
    } else if n == 9 {
        '9'
    } else if n == 10 {
        'a'
    } else if n == 11 {
        'b'
    } else if n == 12 {
        'c'
    } else if n == 13 {
        'd'
    } else if n == 14 {
        'e'
    } else {
        'f'
    }
}

/// Appends the escape of `s` to `out`.
fn push_escaped(out: &mut Vec<char>, s: &str)
    ensures
        final(out)@ == old(out)@ + esc(s@),
{
    let len = s.unicode_len();
    proof {
        assert(esc(s@.take(0)) =~= Seq::<char>::empty());
        assert(out@ + esc(s@.take(0)) =~= out@);
    }
    let mut i: usize = 0;
    while i < len
        invariant
            len == s@.len(),
            i <= len,
            out@ == old(out)@ + esc(s@.take(i as int)),
        decreases len - i,
    {
        let c = s.get_char(i);
        if c == '"' {
            out.push('\\');
            out.push('"');
        } else if c == '\\' {
            out.push('\\');
            out.push('\\');
        } else if (c as u32) < 0x20 {
            let code = c as u32;
            out.push('\\');
            out.push('u');
            out.push('0');
            out.push('0');
            out.push(hex_digit(code / 16));
            out.push(hex_digit(code % 16));
        } else {
            out.push(c);
        }
        proof {
            lemma_esc_snoc(s@.take(i as int), s@[i as int]);
            assert(s@.take(i as int) + seq![s@[i as int]] =~= s@.take(i + 1));
            assert((old(out)@ + esc(s@.take(i as int))) + esc_char(s@[i as int]) =~= old(out)@
                + esc(s@.take(i + 1)));
        }
        i += 1;
    }
    proof {
        assert(s@.take(len as int) =~= s@);
    }
}

/// Appends the rendering of the arguments from position `i` on.
fn push_args(out: &mut Vec<char>, args: &Vec<String>, i: usize)
    requires
        i <= args.len(),
    ensures
        final(out)@ == old(out)@ + args_text(args.deep_view().skip(i as int)),
    decreases args.len() - i,
{
    let ghost rest = args.deep_view().skip(i as int);
    proof {
        assert(args.deep_view().len() == args@.len());
    }
    if i == args.len() {
        proof {
            assert(rest.len() == 0);
            assert(out@ + args_text(rest) =~= out@);
        }
    } else {
        proof {
            assert(rest[0] == args.deep_view()[i as int]);
            assert(args.deep_view()[i as int] == args@[i as int]@);
            assert(rest.drop_first() =~= args.deep_view().skip(i + 1));
        }
        out.push('"');
        push_escaped(out, args[i].as_str());
        out.push('"');
        proof {
            assert(out@ =~= old(out)@ + quoted(args@[i as int]@));
        }
        if i + 1 < args.len() {
            out.push(',');
            push_args(out, args, i + 1);
            proof {
                assert(out@ =~= old(out)@ + (quoted(rest[0]) + seq![','] + args_text(
                    rest.drop_first(),
                )));
                assert(args_text(rest) == quoted(rest[0]) + seq![','] + args_text(
                    rest.drop_first(),
                ));
            }
        } else {
            proof {
                assert(rest.len() == 1);
                assert(args_text(rest) == quoted(rest[0]));
            }
        }
    }
}

/// Renders the canonical compact wire text of a well-formed envelope,
/// terminator excluded: exactly [`envelope_text`].
pub fn render_envelope(e: &SocketMessage) -> (r: String)
    requires
        wf_envelope(e@),
    ensures
        r@ == envelope_text(e@),
{
    match e.kind {
        SocketMessageType::Ping => String::from_str("{\"type\":6}"),
        SocketMessageType::Invocation => {
            let mut out: Vec<char> = Vec::new();
            push_str_chars(&mut out, "{\"type\":1,\"target\":\"");
            match e.target {
                Some(SocketMessageTarget::SubscriptionStatus) => {
                    push_str_chars(&mut out, "subscriptionStatus");
                },
                Some(SocketMessageTarget::CommunicationChannels) => {
                    push_str_chars(&mut out, "communicationChannels");
                },
                None => {
                    proof {
                        assert(false);
                    }
                },
            }
            push_str_chars(&mut out, "\",\"arguments\":[");
            match &e.arguments {
                Some(args) => {
                    proof {
                        assert(args.deep_view().skip(0) =~= args.deep_view());
                    }
                    push_args(&mut out, args, 0);
                },
                None => {
                    proof {
                        assert(false);
                    }
                },
            }
            push_str_chars(&mut out, "]}");
            let r = chars_to_string(&out);
            proof {
                assert(r@ =~= envelope_text(e@));
            }
            r
        },
    }
}

/// Encodes a well-formed envelope as one complete frame: the canonical
/// document text with the terminator appended.
pub fn encode_envelope(e: &SocketMessage) -> (r: String)
    requires
        wf_envelope(e@),
    ensures
        r@ == envelope_text(e@) + seq![crate::TERMINATOR],
{
    let body = render_envelope(e);
    let mut out: Vec<char> = crate::text::str_to_chars(body.as_str());
    out.push(crate::TERMINATOR);
    let r = chars_to_string(&out);
    proof {
        assert(r@ =~= envelope_text(e@) + seq![crate::TERMINATOR]);
    }
    r
}

// ------------------------------------------------------------------
// Encoded frames never contain the terminator.
// ------------------------------------------------------------------

/// No terminator character anywhere in `s`.
pub open spec fn term_free(s: Seq<char>) -> bool
    decreases s.len(),
{
    if s.len() == 0 {
        true
    } else {
        s[0] != crate::TERMINATOR && term_free(s.drop_first())
    }
}

/// A terminator-free text contains no terminator, index by index.
proof fn lemma_term_free_at(s: Seq<char>)
    requires
        term_free(s),
    ensures
        forall|i: int| 0 <= i < s.len() ==> s[i] != crate::TERMINATOR,
    decreases s.len(),
{
    if s.len() > 0 {
        lemma_term_free_at(s.drop_first());
        assert forall|i: int| 0 <= i < s.len() implies s[i] != crate::TERMINATOR by {
            if i > 0 {
                assert(s.drop_first()[i - 1] == s[i]);
            }
        }
    }
}

/// And the other way round.
proof fn lemma_term_free_from_at(s: Seq<char>)
    requires
        forall|i: int| 0 <= i < s.len() ==> s[i] != crate::TERMINATOR,
    ensures
        term_free(s),
    decreases s.len(),
{
    if s.len() > 0 {
        assert forall|i: int| 0 <= i < s.drop_first().len() implies s.drop_first()[i]
            != crate::TERMINATOR by {
            assert(s.drop_first()[i] == s[i + 1]);
        }
        lemma_term_free_from_at(s.drop_first());
    }
}

/// Terminator-freedom carries over concatenation.
proof fn lemma_term_free_concat(a: Seq<char>, b: Seq<char>)
    requires
        term_free(a),
        term_free(b),
    ensures
        term_free(a + b),
{
    lemma_term_free_at(a);
    lemma_term_free_at(b);
    assert forall|i: int| 0 <= i < (a + b).len() implies (a + b)[i] != crate::TERMINATOR by {
        if i < a.len() {
            assert((a + b)[i] == a[i]);
        } else {
            assert((a + b)[i] == b[i - a.len()]);
        }
    }
    lemma_term_free_from_at(a + b);
}

/// The escape of any text is terminator-free: the terminator is a
/// control character, and every control character leaves as a four-digit
/// escape.
proof fn lemma_esc_term_free(s: Seq<char>)
    ensures
        term_free(esc(s)),
    decreases s.len(),
{
    if s.len() > 0 {
        lemma_esc_term_free(s.drop_first());
        let c = s[0];
        assert(term_free(esc_char(c))) by {
            reveal_with_fuel(term_free, 8);
            if c == '"' {
            } else if c == '\\' {
            } else if (c as u32) < 0x20 {
                assert(hex_char((c as u32) / 16) != crate::TERMINATOR);
                assert(hex_char((c as u32) % 16) != crate::TERMINATOR);
            } else {
                assert((crate::TERMINATOR as u32) < 0x20);
            }
        }
        lemma_term_free_concat(esc_char(c), esc(s.drop_first()));
    }
}

/// A quoted, escaped literal is terminator-free.
proof fn lemma_quoted_term_free(s: Seq<char>)
    ensures
        term_free(quoted(s)),
{
    lemma_esc_term_free(s);
    reveal_with_fuel(term_free, 2);
    lemma_term_free_concat(seq!['"'], esc(s));
    lemma_term_free_concat(seq!['"'] + esc(s), seq!['"']);
}

/// The rendered argument list is terminator-free.
proof fn lemma_args_text_term_free(args: Seq<Seq<char>>)
    ensures
        term_free(args_text(args)),
    decreases args.len(),
{
    reveal_with_fuel(term_free, 2);
    if args.len() == 0 {
    } else if args.len() == 1 {
        lemma_quoted_term_free(args[0]);
    } else {
        lemma_quoted_term_free(args[0]);
        lemma_args_text_term_free(args.drop_first());
        lemma_term_free_concat(quoted(args[0]), seq![',']);
        lemma_term_free_concat(quoted(args[0]) + seq![','], args_text(args.drop_first()));
    }
}

/// The canonical text of a well-formed envelope never contains the
/// terminator, so appending one terminator frames it unambiguously.
pub proof fn lemma_envelope_text_term_free(m: EnvelopeView)
    requires
        wf_envelope(m),
    ensures
        !envelope_text(m).contains(crate::TERMINATOR),
{
    reveal_strlit("{\"type\":6}");
    reveal_strlit("{\"type\":1,\"target\":\"");
    reveal_strlit("\",\"arguments\":[");
    reveal_strlit("]}");
    reveal_strlit("subscriptionStatus");
    reveal_strlit("communicationChannels");
    if m.kind is Ping {
        assert(term_free("{\"type\":6}"@)) by {
            reveal_with_fuel(term_free, 24);
        }
        lemma_term_free_at("{\"type\":6}"@);
    } else {
        assert(term_free("{\"type\":1,\"target\":\""@)) by {
            reveal_with_fuel(term_free, 24);
        }
        assert(term_free("\",\"arguments\":["@)) by {
            reveal_with_fuel(term_free, 24);
        }
        assert(term_free("]}"@)) by {
            reveal_with_fuel(term_free, 24);
        }
        assert(term_free("subscriptionStatus"@)) by {
            reveal_with_fuel(term_free, 24);
        }
        assert(term_free("communicationChannels"@)) by {
            reveal_with_fuel(term_free, 24);
        }
        lemma_args_text_term_free(m.arguments->0);
        lemma_term_free_concat("{\"type\":1,\"target\":\""@, target_name(m.target->0));
        lemma_term_free_concat(
            "{\"type\":1,\"target\":\""@ + target_name(m.target->0),
            "\",\"arguments\":["@,
        );
        lemma_term_free_concat(
            "{\"type\":1,\"target\":\""@ + target_name(m.target->0) + "\",\"arguments\":["@,
            args_text(m.arguments->0),
        );
        lemma_term_free_concat(
            "{\"type\":1,\"target\":\""@ + target_name(m.target->0) + "\",\"arguments\":["@
                + args_text(m.arguments->0),
            "]}"@,
        );
        lemma_term_free_at(envelope_text(m));
    }
}

/// Framing: every encoded envelope is exactly one frame, and splitting
/// the emitted frame returns exactly its document.
pub proof fn lemma_encode_framing(m: EnvelopeView)
    requires
        wf_envelope(m),
    ensures
        crate::frames::split_frames(envelope_text(m) + seq![crate::TERMINATOR]) == seq![
            envelope_text(m),
        ],
{
    lemma_envelope_text_term_free(m);
    crate::frames::lemma_single_frame(envelope_text(m));
}

// ------------------------------------------------------------------
// The round trip.
// ------------------------------------------------------------------

/// The JSON structure of the canonical encoding of a well-formed
/// envelope: the document [`envelope_text`] spells out.
pub open spec fn envelope_json(m: EnvelopeView) -> JsonView {
    if m.kind is Ping {
        JsonView::Obj(seq![("type"@, JsonView::UInt(6))])
    } else {
        JsonView::Obj(
            seq![
                ("type"@, JsonView::UInt(1)),
                ("target"@, JsonView::Str(target_name(m.target->0))),
                (
                    "arguments"@,
                    JsonView::Arr(m.arguments->0.map(|i: int, a: Seq<char>| JsonView::Str(a))),
                ),
            ],
        )
    }
}

/// A list of string documents decodes back to itself.
proof fn lemma_strings_of_map(args: Seq<Seq<char>>)
    ensures
        strings_of(args.map(|i: int, a: Seq<char>| JsonView::Str(a))) == Some(args),
    decreases args.len(),
{
    let m = args.map(|i: int, a: Seq<char>| JsonView::Str(a));
    if args.len() == 0 {
        assert(m.len() == 0);
        assert(strings_of(m) == Some(Seq::<Seq<char>>::empty()));
        assert(args =~= Seq::<Seq<char>>::empty());
    } else {
        lemma_strings_of_map(args.drop_first());
        assert(m[0] == JsonView::Str(args[0]));
        assert(m.drop_first() =~= args.drop_first().map(|i: int, a: Seq<char>| JsonView::Str(a)));
        assert(seq![args[0]] + args.drop_first() =~= args);
    }
}

/// Round trip: decoding the encoded document of any well-formed ping or
/// invocation envelope reproduces the envelope exactly.
pub proof fn lemma_envelope_round_trip(m: EnvelopeView)
    requires
        wf_envelope(m),
    ensures
        envelope_of_json(envelope_json(m)) == Ok::<EnvelopeView, SessionError>(m),
{
    reveal_with_fuel(lookup_spec, 4);
    reveal_strlit("type");
    reveal_strlit("target");
    reveal_strlit("arguments");
    reveal_strlit("subscriptionStatus");
    reveal_strlit("communicationChannels");
    assert("type"@.len() == 4);
    assert("target"@.len() == 6);
    assert("arguments"@.len() == 9);
    assert("subscriptionStatus"@.len() == 18);
    assert("communicationChannels"@.len() == 21);
    if m.kind is Ping {
        let fields = seq![("type"@, JsonView::UInt(6u64))];
        assert(lookup_spec(fields, "type"@) == Some(JsonView::UInt(6u64)));
        assert(fields.drop_first().len() == 0);
        assert(lookup_spec(fields, "target"@) is None);
        assert(lookup_spec(fields, "arguments"@) is None);
    } else {
        let t = m.target->0;
        let args = m.arguments->0;
        let am = args.map(|i: int, a: Seq<char>| JsonView::Str(a));
        let fields = seq![
            ("type"@, JsonView::UInt(1u64)),
            ("target"@, JsonView::Str(target_name(t))),
            ("arguments"@, JsonView::Arr(am)),
        ];
        assert(lookup_spec(fields, "type"@) == Some(JsonView::UInt(1u64)));
        assert(fields.drop_first()[0] == fields[1]);
        assert(fields.drop_first().drop_first()[0] == fields[2]);
        assert(lookup_spec(fields, "target"@) == Some(JsonView::Str(target_name(t))));
        assert(lookup_spec(fields, "arguments"@) == Some(JsonView::Arr(am)));
        match t {
            SocketMessageTarget::SubscriptionStatus => {
                assert(target_of_name(target_name(t)) == Some(t));
            },
            SocketMessageTarget::CommunicationChannels => {
                assert(target_name(t) != "subscriptionStatus"@);
                assert(target_of_name(target_name(t)) == Some(t));
            },
        }
        lemma_strings_of_map(args);
    }
}

} // verus!
