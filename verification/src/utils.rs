//! Small shared pieces: the `AsOption` wrapper the coercion layer uses for
//! optional targets, the validated [`Argument`] of a declaration, decimal
//! string parsing, identifier validity, and the description-folding helper
//! `append_line`.

use vstd::prelude::*;
use vstd::string::{StrSliceExecFns, StringExecFns};

use crate::ast::{Span, Stmt, Type};
use crate::error::DefinitionError;
use crate::structures::SlashCommandFun;

verus! {

/// An optional coercion target: `AsOption<T>` accepts the same single-value
/// form as `T` and maps absence to `None`.
#[derive(Debug)]
pub struct AsOption<T>(pub Option<T>);

impl<T> AsOption<T> {
    /// Map the wrapped value, if any, through `f`.
    pub fn map<U, F: FnOnce(T) -> U>(self, f: F) -> (r: AsOption<U>)
        requires
            self.0 matches Some(t) ==> f.requires((t,)),
        ensures
            self.0 is None ==> r.0 is None,
            self.0 matches Some(t) ==> r.0 matches Some(u) && f.ensures((t,), u),
    {
        match self.0 {
            Some(t) => AsOption(Some(f(t))),
            None => AsOption(None),
        }
    }
}

impl<T> Default for AsOption<T> {
    fn default() -> (r: Self)
        ensures
            r.0 is None,
    {
        AsOption(None)
    }
}

impl<T: DeepView> DeepView for AsOption<T> {
    type V = Option<T::V>;

    open spec fn deep_view(&self) -> Option<T::V> {
        match self.0 {
            Some(t) => Some(t.deep_view()),
            None => None,
        }
    }
}

/// One validated parameter of a command declaration.
#[derive(Debug, PartialEq)]
pub struct Argument {
    pub mutable: bool,
    pub name: String,
    pub kind: Type,
}

/// Relies on `String::push`: appends exactly one character to the string.
#[verifier::external_body]
pub fn push_char(s: &mut String, c: char)
    ensures
        final(s)@ == old(s)@.push(c),
{
    s.push(c);
}

/// Whether `c` is a decimal digit.
pub open spec fn is_dec_digit(c: char) -> bool {
    '0' as int <= c as int <= '9' as int
}

/// The numeric value of the digit `c`.
pub open spec fn digit_val(c: char) -> int {
    c as int - '0' as int
}

/// Whether `s` is a non-empty, all-digit string.
pub open spec fn is_dec_string(s: Seq<char>) -> bool {
    s.len() > 0 && forall|i: int| 0 <= i < s.len() ==> is_dec_digit(#[trigger] s[i])
}

/// The unbounded value of the digit string `s`, most significant digit first.
pub open spec fn dec_value(s: Seq<char>) -> int
    decreases s.len(),
{
    if s.len() == 0 {
        0
    } else {
        dec_value(s.drop_last()) * 10 + digit_val(s.last())
    }
}

/// What parsing a decimal string as an unsigned 64-bit integer yields:
/// defined exactly on non-empty all-digit strings whose value fits.
pub open spec fn parse_u64_spec(s: Seq<char>) -> Option<u64> {
    if is_dec_string(s) && dec_value(s) <= u64::MAX {
        Some(dec_value(s) as u64)
    } else {
        None
    }
}

proof fn lemma_dec_value_nonneg(s: Seq<char>)
    requires
        forall|i: int| 0 <= i < s.len() ==> is_dec_digit(#[trigger] s[i]),
    ensures
        dec_value(s) >= 0,
    decreases s.len(),
{
    if s.len() > 0 {
        lemma_dec_value_nonneg(s.drop_last());
    }
}

/// Once a digit-string prefix exceeds any bound, every longer prefix does too.
proof fn lemma_dec_value_prefix_grows(s: Seq<char>, i: int)
    requires
        forall|k: int| 0 <= k < s.len() ==> is_dec_digit(#[trigger] s[k]),
        0 <= i <= s.len(),
    ensures
        dec_value(s.take(i)) <= dec_value(s),
    decreases s.len() - i,
{
    if i < s.len() {
        lemma_dec_value_prefix_grows(s, i + 1);
        let p = s.take(i + 1);
        assert(p.drop_last() =~= s.take(i));
        assert(p.last() == s[i]);
        lemma_dec_value_nonneg(s.take(i));
        assert(dec_value(s.take(i)) <= dec_value(s.take(i)) * 10 + digit_val(s[i])) by (nonlinear_arith)
            requires
                dec_value(s.take(i)) >= 0,
                digit_val(s[i]) >= 0,
        ;
    } else {
        assert(s.take(i) =~= s);
    }
}

/// Parse a non-empty all-digit string as a `u64`; `None` on any other input
/// or when the value does not fit in 64 bits.
pub fn parse_u64_str(s: &str) -> (r: Option<u64>)
    ensures
        r == parse_u64_spec(s@),
{
    let len = s.unicode_len();
    if len == 0 {
        return None;
    }
    let mut acc: u64 = 0;
    let mut i: usize = 0;
    while i < len
        invariant
            0 <= i <= len,
            len == s@.len(),
            forall|k: int| 0 <= k < i ==> is_dec_digit(#[trigger] s@[k]),
            acc == dec_value(s@.take(i as int)),
        decreases len - i,
    {
        let c = s.get_char(i);
        let u = c as u32;
        if u < 48 || u > 57 {
            assert(!is_dec_digit(s@[i as int]));
            return None;
        }
        let d = (u - 48) as u64;
        assert(is_dec_digit(s@[i as int]) && digit_val(s@[i as int]) == d);
        if acc > (u64::MAX - d) / 10 {
            proof {
                let p = s@.take(i as int + 1);
                assert(p.drop_last() =~= s@.take(i as int));
                assert(p.last() == s@[i as int]);
                assert(dec_value(p) > u64::MAX) by (nonlinear_arith)
                    requires
                        dec_value(p) == dec_value(s@.take(i as int)) * 10 + digit_val(s@[i as int]),
                        dec_value(s@.take(i as int)) > (u64::MAX - digit_val(s@[i as int])) / 10,
                        0 <= digit_val(s@[i as int]) <= 9,
                ;
                if is_dec_string(s@) {
                    lemma_dec_value_prefix_grows(s@, i as int + 1);
                }
            }
            return None;
        }
        proof {
            let p = s@.take(i as int + 1);
            assert(p.drop_last() =~= s@.take(i as int));
            assert(p.last() == s@[i as int]);
            assert(acc * 10 + d <= u64::MAX) by (nonlinear_arith)
                requires
                    acc <= (u64::MAX - d) / 10,
                    0 <= d <= 9,
                    acc >= 0,
            ;
        }
        acc = acc * 10 + d;
        i += 1;
    }
    proof {
        assert(s@.take(len as int) =~= s@);
    }
    Some(acc)
}

/// Whether `c` may start an identifier: an ASCII letter or an underscore.
pub open spec fn is_ident_start(c: char) -> bool {
    ('a' as int <= c as int <= 'z' as int) || ('A' as int <= c as int <= 'Z' as int) || c == '_'
}

/// Whether `c` may continue an identifier: a start character or a digit.
pub open spec fn is_ident_continue(c: char) -> bool {
    is_ident_start(c) || is_dec_digit(c)
}

/// Whether `s` spells a valid identifier: non-empty, not a lone underscore,
/// an identifier-start character followed by identifier characters.
pub open spec fn is_valid_ident_spec(s: Seq<char>) -> bool {
    &&& s.len() > 0
    &&& !(s.len() == 1 && s[0] == '_')
    &&& is_ident_start(s[0])
    &&& forall|i: int| 0 < i < s.len() ==> is_ident_continue(#[trigger] s[i])
}

/// Check that `s` spells a valid identifier.
pub fn is_valid_ident(s: &str) -> (r: bool)
    ensures
        r == is_valid_ident_spec(s@),
{
    let len = s.unicode_len();
    if len == 0 {
        return false;
    }
    let first = s.get_char(0);
    let fu = first as u32;
    let first_ok = (fu >= 97 && fu <= 122) || (fu >= 65 && fu <= 90) || first == '_';
    if !first_ok {
        assert(!is_ident_start(s@[0]));
        return false;
    }
    if len == 1 && first == '_' {
        return false;
    }
    let mut i: usize = 1;
    while i < len
        invariant
            1 <= i <= len,
            len == s@.len(),
            forall|k: int| 0 < k < i ==> is_ident_continue(#[trigger] s@[k]),
        decreases len - i,
    {
        let c = s.get_char(i);
        let u = c as u32;
        let ok = (u >= 97 && u <= 122) || (u >= 65 && u <= 90) || (u >= 48 && u <= 57) || c == '_';
        if !ok {
            assert(!is_ident_continue(s@[i as int]));
            return false;
        }
        assert(is_ident_continue(s@[i as int]));
        i += 1;
    }
    true
}


/// Whether `c` is trailing whitespace for description folding.
pub open spec fn is_trailing_ws(c: char) -> bool {
    c == ' ' || c == '\t' || c == '\n' || c == '\r'
}

fn is_ws_char(c: char) -> (b: bool)
    ensures
        b == is_trailing_ws(c),
{
    c == ' ' || c == '\t' || c == '\n' || c == '\r'
}

/// The ASCII uppercase of `c`: a lower-case letter becomes its upper-case
/// counterpart, any other character is unchanged.
pub open spec fn upper_char(c: char) -> char {
    if c == 'a' {
        'A'
    } else     if c == 'b' {
        'B'
    } else     if c == 'c' {
        'C'
    } else     if c == 'd' {
        'D'
    } else     if c == 'e' {
        'E'
    } else     if c == 'f' {
        'F'
    } else     if c == 'g' {
        'G'
    } else     if c == 'h' {
        'H'
    } else     if c == 'i' {
        'I'
    } else     if c == 'j' {
        'J'
    } else     if c == 'k' {
        'K'
    } else     if c == 'l' {
        'L'
    } else     if c == 'm' {
        'M'
    } else     if c == 'n' {
        'N'
    } else     if c == 'o' {
        'O'
    } else     if c == 'p' {
        'P'
    } else     if c == 'q' {
        'Q'
    } else     if c == 'r' {
        'R'
    } else     if c == 's' {
        'S'
    } else     if c == 't' {
        'T'
    } else     if c == 'u' {
        'U'
    } else     if c == 'v' {
        'V'
    } else     if c == 'w' {
        'W'
    } else     if c == 'x' {
        'X'
    } else     if c == 'y' {
        'Y'
    } else     if c == 'z' {
        'Z'
    } else {
        c
    }
}

fn upper_char_exec(c: char) -> (r: char)
    ensures
        r == upper_char(c),
{
    match c {
        'a' => 'A',
        'b' => 'B',
        'c' => 'C',
        'd' => 'D',
        'e' => 'E',
        'f' => 'F',
        'g' => 'G',
        'h' => 'H',
        'i' => 'I',
        'j' => 'J',
        'k' => 'K',
        'l' => 'L',
        'm' => 'M',
        'n' => 'N',
        'o' => 'O',
        'p' => 'P',
        'q' => 'Q',
        'r' => 'R',
        's' => 'S',
        't' => 'T',
        'u' => 'U',
        'v' => 'V',
        'w' => 'W',
        'x' => 'X',
        'y' => 'Y',
        'z' => 'Z',
        _ => c,
    }
}

/// `s` with every character upper-cased.
pub open spec fn upper_seq(s: Seq<char>) -> Seq<char> {
    Seq::new(s.len(), |i: int| upper_char(s[i]))
}

/// The identifier's text without a leading raw-identifier prefix.
pub open spec fn non_raw_spec(s: Seq<char>) -> Seq<char> {
    if s.len() >= 2 && s[0] == 'r' && s[1] == '#' {
        s.skip(2)
    } else {
        s
    }
}

/// Strip a raw-identifier prefix from an identifier's text.
pub fn to_string_non_raw(s: &str) -> (r: String)
    ensures
        r@ == non_raw_spec(s@),
{
    let len = s.unicode_len();
    if len >= 2 && s.get_char(0) == 'r' && s.get_char(1) == '#' {
        let rest = s.substring_char(2, len);
        proof {
            assert(rest@ =~= s@.skip(2));
        }
        String::from_str(rest)
    } else {
        String::from_str(s)
    }
}

/// The upper-cased non-raw identifier, an underscore, and the suffix: the
/// name given to a synthesized per-command item.
#[verifier::loop_isolation(false)]
pub fn with_suffix(name: &str, suffix: &str) -> (r: String)
    ensures
        r@ == upper_seq(non_raw_spec(name@)) + seq!['_'] + suffix@,
{
    let base = to_string_non_raw(name);
    let blen = base.as_str().unicode_len();
    let mut out = String::new();
    let mut i: usize = 0;
    while i < blen
        invariant
            0 <= i <= blen,
            out@ =~= upper_seq(base@).take(i as int),
        decreases blen - i,
    {
        let c = base.as_str().get_char(i);
        push_char(&mut out, upper_char_exec(c));
        proof {
            assert(out@ =~= upper_seq(base@).take(i as int + 1));
        }
        i += 1;
    }
    proof {
        assert(upper_seq(base@).take(blen as int) =~= upper_seq(base@));
    }
    push_char(&mut out, '_');
    out.append(suffix);
    proof {
        assert((upper_seq(base@).push('_')) =~= upper_seq(base@) + seq!['_']);
    }
    out
}


/// The line with one leading space removed, if it starts with one.
pub open spec fn strip_one_leading_space(l: Seq<char>) -> Seq<char> {
    if l.len() > 0 && l[0] == ' ' {
        l.drop_first()
    } else {
        l
    }
}

/// Whether the two-character continuation marker starts at position `j`.
pub open spec fn is_marker_at(l: Seq<char>, j: int) -> bool {
    0 <= j && j + 1 < l.len() && l[j] == '\\' && l[j + 1] == '$'
}

/// The last continuation-marker position strictly below `upto`, if any.
pub open spec fn marker_index_upto(l: Seq<char>, upto: int) -> Option<int>
    decreases upto,
{
    if upto <= 0 {
        None
    } else if is_marker_at(l, upto - 1) {
        Some(upto - 1)
    } else {
        marker_index_upto(l, upto - 1)
    }
}

/// The position of the last continuation marker in `l`, if any.
pub open spec fn marker_index(l: Seq<char>) -> Option<int> {
    marker_index_upto(l, l.len() - 1)
}

proof fn lemma_marker_index_is_marker(l: Seq<char>, upto: int)
    ensures
        marker_index_upto(l, upto) matches Some(u) ==> is_marker_at(l, u) && u < upto,
    decreases upto,
{
    if upto > 0 && !is_marker_at(l, upto - 1) {
        lemma_marker_index_is_marker(l, upto - 1);
    }
}

/// `l` with its trailing whitespace removed.
pub open spec fn trim_end_spec(l: Seq<char>) -> Seq<char>
    decreases l.len(),
{
    if l.len() > 0 && is_trailing_ws(l.last()) {
        trim_end_spec(l.drop_last())
    } else {
        l
    }
}

/// What folding one more line onto a description yields: the line loses one
/// leading space; a line whose last continuation marker is at `j` contributes
/// its text before `j`, trailing whitespace trimmed, joined with a single
/// space; a plain line contributes itself followed by a newline.
pub open spec fn appended_line(desc: Seq<char>, line: Seq<char>) -> Seq<char> {
    let l = strip_one_leading_space(line);
    match marker_index(l) {
        Some(j) => desc + trim_end_spec(l.take(j)) + seq![' '],
        None => desc + l + seq!['\n'],
    }
}

/// The description text held so far: empty if none has accumulated.
pub open spec fn desc_view(d: AsOption<String>) -> Seq<char> {
    match d.0 {
        Some(s) => s@,
        None => Seq::empty(),
    }
}

/// Fold one more line of description text onto `desc`, as
/// [`appended_line`] describes.
#[verifier::loop_isolation(false)]
pub fn append_line(desc: &mut AsOption<String>, line: String)
    ensures
        final(desc).0 is Some,
        desc_view(*final(desc)) == appended_line(desc_view(*old(desc)), line@),
{
    let llen = line.as_str().unicode_len();
    let strip = llen > 0 && line.as_str().get_char(0) == ' ';
    let line2: String = if strip {
        let rest = line.as_str().substring_char(1, llen);
        proof {
            assert(rest@ =~= line@.drop_first());
        }
        String::from_str(rest)
    } else {
        line
    };
    let len = line2.as_str().unicode_len();
    let ghost l = line2@;

    // Find the last continuation marker, scanning forward and keeping the
    // latest hit.
    let mut found: Option<usize> = None;
    let mut j: usize = 0;
    while j + 1 < len
        invariant
            0 <= j <= len,
            len == 0 || j < len,
            (match found {
                Some(u) => marker_index_upto(l, j as int) == Some(u as int),
                None => marker_index_upto(l, j as int) is None,
            }),
        decreases len - j,
    {
        if line2.as_str().get_char(j) == '\\' && line2.as_str().get_char(j + 1) == '$' {
            found = Some(j);
        }
        j += 1;
    }
    proof {
        if len == 0 {
            assert(marker_index(l) == marker_index_upto(l, 0));
        } else {
            assert(j == len - 1);
        }
    }

    let mut d: String = match &desc.0 {
        Some(s) => s.clone(),
        None => String::new(),
    };
    match found {
        Some(m) => {
            proof {
                lemma_marker_index_is_marker(l, l.len() - 1);
            }
            // Trim the trailing whitespace of the text before the marker.
            let mut t: usize = m;
            while t > 0 && is_ws_char(line2.as_str().get_char(t - 1))
                invariant
                    0 <= t <= m,
                    trim_end_spec(l.take(m as int)) == trim_end_spec(l.take(t as int)),
                decreases t,
            {
                proof {
                    let p = l.take(t as int);
                    assert(p.drop_last() =~= l.take(t as int - 1));
                    assert(p.last() == l[t as int - 1]);
                }
                t -= 1;
            }
            proof {
                if t > 0 {
                    let p = l.take(t as int);
                    assert(p.last() == l[t as int - 1]);
                    assert(trim_end_spec(p) == p);
                }
            }
            let prefix = line2.as_str().substring_char(0, t);
            d.append(prefix);
            d.append(" ");
            proof {
                reveal_strlit(" ");
                assert(" "@ =~= seq![' ']);
                assert(prefix@ =~= l.take(t as int));
                assert(d@ =~= appended_line(desc_view(*old(desc)), line@));
            }
        },
        None => {
            d.append(line2.as_str());
            d.append("\n");
            proof {
                reveal_strlit("\n");
                assert("\n"@ =~= seq!['\n']);
                assert(d@ =~= appended_line(desc_view(*old(desc)), line@));
            }
        },
    }
    desc.0 = Some(d);
}


/// Whether `t` is the platform's execution-context parameter type.
pub open spec fn is_context_type(t: Type) -> bool {
    match t {
        Type::Reference { lifetime, inner } => lifetime is None && match *inner {
            Type::Named { name } => name@ == "serenity::client::Context"@,
            _ => false,
        },
        _ => false,
    }
}

/// Whether `t` is the platform's event-payload parameter type.
pub open spec fn is_interaction_type(t: Type) -> bool {
    match t {
        Type::Reference { lifetime, inner } => lifetime is None && match *inner {
            Type::Named { name } => name@
                == "serenity::model::interactions::application_command::ApplicationCommandInteraction"@,
            _ => false,
        },
        _ => false,
    }
}

/// Whether `t` is the platform's required result type.
pub open spec fn is_result_type(t: Type) -> bool {
    match t {
        Type::Named { name } => name@ == "serenity::Result<()>"@,
        _ => false,
    }
}

/// The expected execution-context parameter type.
pub fn context_type() -> (t: Type)
    ensures
        is_context_type(t),
{
    Type::Reference {
        lifetime: None,
        inner: Box::new(Type::Named { name: String::from_str("serenity::client::Context") }),
    }
}

/// The expected event-payload parameter type.
pub fn interaction_type() -> (t: Type)
    ensures
        is_interaction_type(t),
{
    Type::Reference {
        lifetime: None,
        inner: Box::new(
            Type::Named {
                name: String::from_str(
                    "serenity::model::interactions::application_command::ApplicationCommandInteraction",
                ),
            },
        ),
    }
}

/// The required result type of a command declaration.
pub fn result_type() -> (t: Type)
    ensures
        is_result_type(t),
{
    Type::Named { name: String::from_str("serenity::Result<()>") }
}

/// The statement asserting, at the artifact's own build time, that a
/// declared type structurally equals the expected one.
pub fn generate_type_validation(have: Type, expect: Type) -> (r: Stmt)
    ensures
        r == (Stmt::TypeAssertEq { have, expect }),
{
    Stmt::TypeAssertEq { have, expect }
}

/// Enforce the declaration's parameter shape: more than two parameters is a
/// fatal arity error; a missing context or payload parameter is synthesized
/// with a placeholder name and the expected type; a present one instead gets
/// a type-equality assertion prepended to the body.
pub fn create_declaration_validations(fun: &mut SlashCommandFun) -> (r: Result<
    (),
    DefinitionError,
>)
    ensures
        (match r {
            Ok(_) => {
                let n = old(fun).args@.len();
                &&& n <= 2
                &&& final(fun).args@.len() == 2
                &&& forall|i: int| 0 <= i < n ==> final(fun).args@[i] == old(fun).args@[i]
                &&& forall|i: int|
                    n <= i < 2 ==> (#[trigger] final(fun).args@[i]).mutable == false
                &&& n == 0 ==> final(fun).args@[0].name@ == "_ctx"@ && is_context_type(
                    final(fun).args@[0].kind,
                ) && final(fun).args@[1].name@ == "_interaction"@ && is_interaction_type(
                    final(fun).args@[1].kind,
                ) && final(fun).body@ == old(fun).body@
                &&& n == 1 ==> final(fun).args@[1].name@ == "_interaction"@
                    && is_interaction_type(final(fun).args@[1].kind)
                    && final(fun).body@.len() == old(fun).body@.len() + 1
                    && final(fun).body@.skip(1) == old(fun).body@
                    && (final(fun).body@[0] matches Stmt::TypeAssertEq { have, expect }
                        && have == old(fun).args@[0].kind && is_context_type(expect))
                &&& n == 2 ==> final(fun).body@.len() == old(fun).body@.len() + 2
                    && final(fun).body@.skip(2) == old(fun).body@
                    && (final(fun).body@[0] matches Stmt::TypeAssertEq { have, expect }
                        && have == old(fun).args@[1].kind && is_interaction_type(expect))
                    && (final(fun).body@[1] matches Stmt::TypeAssertEq { have, expect }
                        && have == old(fun).args@[0].kind && is_context_type(expect))
                &&& final(fun).attributes == old(fun).attributes
                &&& final(fun).cooked == old(fun).cooked
                &&& final(fun).visibility == old(fun).visibility
                &&& final(fun).name == old(fun).name
                &&& final(fun).ret == old(fun).ret
            },
            Err(e) => old(fun).args@.len() > 2 && e == (DefinitionError::TooManyArguments {
                span: Span::absent_spec(),
            }) && *final(fun) == *old(fun),
        }),
{
    if fun.args.len() > 2 {
        return Err(DefinitionError::TooManyArguments { span: Span::absent() });
    }
    let ctx = context_type();
    let inter = interaction_type();
    if fun.args.len() >= 1 {
        let have = fun.args[0].kind.clone_type();
        fun.body.insert(0, Stmt::TypeAssertEq { have, expect: ctx });
    } else {
        fun.args.push(Argument { mutable: false, name: String::from_str("_ctx"), kind: ctx });
    }
    if fun.args.len() >= 2 {
        let have = fun.args[1].kind.clone_type();
        fun.body.insert(0, Stmt::TypeAssertEq { have, expect: inter });
    } else {
        fun.args.push(
            Argument { mutable: false, name: String::from_str("_interaction"), kind: inter },
        );
    }
    Ok(())
}

/// Prepend the assertion that the declared return type equals the expected
/// one.
pub fn create_return_type_validation(fun: &mut SlashCommandFun, expect: Type)
    ensures
        final(fun).body@ == seq![
            Stmt::TypeAssertEq { have: old(fun).ret, expect },
        ] + old(fun).body@,
        final(fun).args == old(fun).args,
        final(fun).attributes == old(fun).attributes,
        final(fun).cooked == old(fun).cooked,
        final(fun).visibility == old(fun).visibility,
        final(fun).name == old(fun).name,
        final(fun).ret == old(fun).ret,
{
    let have = fun.ret.clone_type();
    fun.body.insert(0, Stmt::TypeAssertEq { have, expect });
    proof {
        assert(final(fun).body@ =~= seq![
            Stmt::TypeAssertEq { have: old(fun).ret, expect },
        ] + old(fun).body@);
    }
}

/// How one argument changes when the callback's async lifetime is filled in:
/// a reference type gets the callback-scoped lifetime, anything else is
/// untouched.
pub open spec fn fut_lifetime_rel(before: Argument, after: Argument) -> bool {
    match before.kind {
        Type::Reference { lifetime, inner } => {
            &&& after.mutable == before.mutable
            &&& after.name == before.name
            &&& (after.kind matches Type::Reference { lifetime: l2, inner: i2 } && l2 matches
                Some(l) && l@ == "'async_trait"@ && i2 == inner)
        },
        _ => after == before,
    }
}

/// Tie every reference parameter to the synthesized callback's
/// async-execution scope: such a parameter lives exactly as long as one
/// dispatch invocation.
#[verifier::loop_isolation(false)]
pub fn populate_fut_lifetimes_on_refs(args: &mut Vec<Argument>)
    ensures
        final(args)@.len() == old(args)@.len(),
        forall|i: int|
            0 <= i < old(args)@.len() ==> fut_lifetime_rel(
                old(args)@[i],
                #[trigger] final(args)@[i],
            ),
{
    let ghost orig = args@;
    let mut out: Vec<Argument> = Vec::new();
    while args.len() > 0
        invariant
            out@.len() + args@.len() == orig.len(),
            args@ =~= orig.skip(out@.len() as int),
            forall|i: int| 0 <= i < out@.len() ==> fut_lifetime_rel(orig[i], #[trigger] out@[i]),
        decreases args.len(),
    {
        let ghost rest0 = args@;
        let a = args.remove(0);
        proof {
            assert(rest0[0] == a);
            assert(args@ =~= rest0.drop_first());
            assert(orig[out@.len() as int] == a);
        }
        match a.kind {
            Type::Reference { lifetime, inner } => {
                out.push(
                    Argument {
                        mutable: a.mutable,
                        name: a.name,
                        kind: Type::Reference {
                            lifetime: Some(String::from_str("'async_trait")),
                            inner,
                        },
                    },
                );
            },
            other => {
                out.push(Argument { mutable: a.mutable, name: a.name, kind: other });
            },
        }
        proof {
            assert(args@ =~= orig.skip(out@.len() as int));
        }
    }
    *args = out;
}

} // verus!
