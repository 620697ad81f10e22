//! Normalisation of the text that the capability accepts: surrounding
//! Unicode white space is removed, and blank values count as missing.
use vstd::prelude::*;
use crate::error::{CommerceErrorKind, CommerceServiceError, is_error};

verus! {

/// The Unicode `White_Space` property, the set of characters that
/// `str::trim` removes.
pub open spec fn is_white_space(c: char) -> bool {
    let v = c as u32;
    ||| 0x9 <= v <= 0xD
    ||| v == 0x20
    ||| v == 0x85
    ||| v == 0xA0
    ||| v == 0x1680
    ||| 0x2000 <= v <= 0x200A
    ||| v == 0x2028
    ||| v == 0x2029
    ||| v == 0x202F
    ||| v == 0x205F
    ||| v == 0x3000
}

/// `s` without its leading white space.
pub open spec fn trim_start_chars(s: Seq<char>) -> Seq<char>
    decreases s.len(),
{
    if s.len() > 0 && is_white_space(s[0]) {
        trim_start_chars(s.drop_first())
    } else {
        s
    }
}

/// `s` without its trailing white space.
pub open spec fn trim_end_chars(s: Seq<char>) -> Seq<char>
    decreases s.len(),
{
    if s.len() > 0 && is_white_space(s.last()) {
        trim_end_chars(s.drop_last())
    } else {
        s
    }
}

/// `s` without its leading and trailing white space.
pub open spec fn trimmed(s: Seq<char>) -> Seq<char> {
    trim_end_chars(trim_start_chars(s))
}

/// A value that holds nothing but white space.
pub open spec fn is_blank(s: Seq<char>) -> bool {
    trimmed(s).len() == 0
}

/// A text that normalisation leaves as it is and that is not blank.
pub open spec fn is_normalized_text(s: Seq<char>) -> bool {
    trimmed(s) == s && s.len() > 0
}

/// An optional text as the capability stores it: trimmed, and absent
/// when the value was absent or blank.
pub open spec fn normalized_optional(v: Option<Seq<char>>) -> Option<Seq<char>> {
    match v {
        Some(s) => if is_blank(s) { None } else { Some(trimmed(s)) },
        None => None,
    }
}

pub open spec fn str_option_view(v: Option<&str>) -> Option<Seq<char>> {
    match v {
        Some(s) => Some(s@),
        None => None,
    }
}

pub open spec fn string_option_view(v: Option<String>) -> Option<Seq<char>> {
    match v {
        Some(s) => Some(s@),
        None => None,
    }
}

/// An optional text that normalisation leaves as it is.
pub open spec fn is_normalized_optional(v: Option<Seq<char>>) -> bool {
    match v {
        Some(s) => is_normalized_text(s),
        None => true,
    }
}

/// The name of the first field, in the order given, whose value is blank.
pub open spec fn first_blank(fields: Seq<(Seq<char>, Seq<char>)>) -> Option<Seq<char>>
    decreases fields.len(),
{
    if fields.len() == 0 {
        None
    } else if is_blank(fields[0].1) {
        Some(fields[0].0)
    } else {
        first_blank(fields.drop_first())
    }
}

/// A request is refused for a blank field exactly when one of its required
/// fields is blank, and the field it names is one of them and blank.
pub proof fn lemma_first_blank_names_a_blank_field(fields: Seq<(Seq<char>, Seq<char>)>)
    ensures
        first_blank(fields) is None <==> forall|i: int| 0 <= i < fields.len() ==> !is_blank(#[trigger] fields[i].1),
        first_blank(fields) matches Some(name) ==> exists|i: int|
            0 <= i < fields.len() && #[trigger] fields[i].0 == name && is_blank(fields[i].1)
                && forall|j: int| 0 <= j < i ==> !is_blank(#[trigger] fields[j].1),
    decreases fields.len(),
{
    if fields.len() > 0 {
        let rest = fields.drop_first();
        lemma_first_blank_names_a_blank_field(rest);
        if !is_blank(fields[0].1) {
            assert forall|i: int| 1 <= i < fields.len() implies fields[i] == rest[i - 1] by {}
            if first_blank(rest) is None {
                assert forall|i: int| 0 <= i < fields.len() implies !is_blank(#[trigger] fields[i].1) by {
                    if i > 0 {
                        assert(fields[i] == rest[i - 1]);
                    }
                }
            } else {
                let k = choose|k: int|
                    0 <= k < rest.len() && #[trigger] rest[k].0 == first_blank(rest)->0 && is_blank(rest[k].1)
                        && forall|j: int| 0 <= j < k ==> !is_blank(#[trigger] rest[j].1);
                assert(fields[k + 1] == rest[k]);
                assert forall|j: int| 0 <= j < k + 1 implies !is_blank(#[trigger] fields[j].1) by {
                    if j > 0 {
                        assert(fields[j] == rest[j - 1]);
                    }
                }
                assert(!(forall|i: int| 0 <= i < fields.len() ==> !is_blank(#[trigger] fields[i].1))) by {
                    assert(is_blank(fields[k + 1].1));
                }
            }
        }
    }
}

/// The message of the error for a missing required field.
pub open spec fn required_message(field_name: Seq<char>) -> Seq<char> {
    field_name + " is required"@
}

proof fn lemma_trim_start_shape(s: Seq<char>)
    ensures
        trim_start_chars(s).len() <= s.len(),
        trim_start_chars(s) == s.subrange(s.len() - trim_start_chars(s).len(), s.len() as int),
        trim_start_chars(s).len() > 0 ==> !is_white_space(trim_start_chars(s)[0]),
    decreases s.len(),
{
    if s.len() > 0 && is_white_space(s[0]) {
        lemma_trim_start_shape(s.drop_first());
        let t = trim_start_chars(s.drop_first());
        assert(s.drop_first().subrange(s.drop_first().len() - t.len(), s.drop_first().len() as int)
            =~= s.subrange(s.len() - t.len(), s.len() as int));
    } else {
        assert(s.subrange(0, s.len() as int) =~= s);
    }
}

proof fn lemma_trim_end_shape(s: Seq<char>)
    ensures
        trim_end_chars(s).len() <= s.len(),
        trim_end_chars(s) == s.subrange(0, trim_end_chars(s).len() as int),
        trim_end_chars(s).len() > 0 ==> !is_white_space(trim_end_chars(s).last()),
    decreases s.len(),
{
    if s.len() > 0 && is_white_space(s.last()) {
        lemma_trim_end_shape(s.drop_last());
        let t = trim_end_chars(s.drop_last());
        assert(s.drop_last().subrange(0, t.len() as int) =~= s.subrange(0, t.len() as int));
    } else {
        assert(s.subrange(0, s.len() as int) =~= s);
    }
}

/// A text that neither starts nor ends with white space is its own trim.
proof fn lemma_trim_fixed(s: Seq<char>)
    requires
        s.len() > 0 ==> !is_white_space(s[0]) && !is_white_space(s.last()),
    ensures
        trimmed(s) == s,
{
}

/// Trimming twice gives what trimming once gives.
pub proof fn lemma_trimmed_idempotent(s: Seq<char>)
    ensures
        trimmed(trimmed(s)) == trimmed(s),
{
    let a = trim_start_chars(s);
    lemma_trim_start_shape(s);
    lemma_trim_end_shape(a);
    let b = trim_end_chars(a);
    if b.len() > 0 {
        assert(b[0] == a[0]);
    }
    lemma_trim_fixed(b);
}

/// A trimmed text that is not empty is a normalised text.
pub proof fn lemma_trimmed_normalized(s: Seq<char>)
    requires
        !is_blank(s),
    ensures
        is_normalized_text(trimmed(s)),
{
    lemma_trimmed_idempotent(s);
}

/// The optional form of a value is left as it is by a second normalisation.
pub proof fn lemma_normalized_optional_fixed(v: Option<Seq<char>>)
    ensures
        is_normalized_optional(normalized_optional(v)),
        normalized_optional(normalized_optional(v)) == normalized_optional(v),
{
    if let Some(s) = v {
        if !is_blank(s) {
            lemma_trimmed_normalized(s);
        }
    }
}

/// `str::trim`: the slice without its leading and trailing white space,
/// white space being the characters of the Unicode `White_Space` property.
#[verifier::external_body]
fn trim_str(s: &str) -> (r: &str)
    ensures
        r@ == trimmed(s@),
{
    s.trim()
}

/// The trimmed value of a required field, or a validation error naming the
/// field when the value is blank.
pub fn required_text(field_name: &str, value: &str) -> (r: Result<String, CommerceServiceError>)
    ensures
        match r {
            Ok(s) => !is_blank(value@) && s@ == trimmed(value@),
            Err(e) => is_blank(value@) && is_error(
                e,
                CommerceErrorKind::Validation,
                required_message(field_name@),
            ),
        },
{
    let t = trim_str(value);
    if t.is_empty() {
        Err(missing_field_error(field_name))
    } else {
        Ok(t.to_owned())
    }
}

/// The validation error for a missing required field.
pub fn missing_field_error(field_name: &str) -> (e: CommerceServiceError)
    ensures
        is_error(e, CommerceErrorKind::Validation, required_message(field_name@)),
{
    let mut message = field_name.to_owned();
    message.append(" is required");
    CommerceServiceError { kind: CommerceErrorKind::Validation, message }
}

/// The trimmed value of an optional field; a blank value counts as absent.
pub fn optional_text(value: Option<&str>) -> (r: Option<String>)
    ensures
        string_option_view(r) == normalized_optional(str_option_view(value)),
{
    match value {
        Some(v) => {
            let t = trim_str(v);
            if t.is_empty() {
                None
            } else {
                Some(t.to_owned())
            }
        },
        None => None,
    }
}

/// The decimal digit for `d` in 0..=9.
pub open spec fn digit_char(d: int) -> char {
    if d == 0 { '0' }
    else if d == 1 { '1' }
    else if d == 2 { '2' }
    else if d == 3 { '3' }
    else if d == 4 { '4' }
    else if d == 5 { '5' }
    else if d == 6 { '6' }
    else if d == 7 { '7' }
    else if d == 8 { '8' }
    else { '9' }
}

/// The decimal notation of `n`, without leading zeros.
pub open spec fn decimal_digits(n: nat) -> Seq<char>
    decreases n,
{
    if n < 10 {
        seq![digit_char(n as int)]
    } else {
        decimal_digits(n / 10).push(digit_char((n % 10) as int))
    }
}

/// The decimal notation of `i`, with a leading `-` when it is negative.
pub open spec fn signed_decimal(i: int) -> Seq<char> {
    if i < 0 {
        seq!['-'] + decimal_digits((-i) as nat)
    } else {
        decimal_digits(i as nat)
    }
}

/// `ToString::to_string` on a `u64`: its `Display` form, the decimal
/// notation without leading zeros.
#[verifier::external_body]
pub(crate) fn u64_to_decimal(n: u64) -> (s: String)
    ensures
        s@ == decimal_digits(n as nat),
{
    n.to_string()
}

/// `ToString::to_string` on an `i64`: its `Display` form, the decimal
/// notation with a leading `-` for a negative value.
#[verifier::external_body]
pub(crate) fn i64_to_decimal(n: i64) -> (s: String)
    ensures
        s@ == signed_decimal(n as int),
{
    n.to_string()
}

/// The timestamp the stores write, from the seconds elapsed since the Unix
/// epoch as the clock gave them: their decimal notation, or "0" when the
/// clock stood before the epoch.
pub fn current_timestamp_string(seconds_since_epoch: Option<u64>) -> (s: String)
    ensures
        s@ == decimal_digits(
            match seconds_since_epoch {
                Some(n) => n as nat,
                None => 0,
            },
        ),
{
    let seconds: u64 = match seconds_since_epoch {
        Some(n) => n,
        None => 0,
    };
    u64_to_decimal(seconds)
}

/// The text of an optional string, borrowed.
pub fn as_str_option(value: &Option<String>) -> (r: Option<&str>)
    ensures
        str_option_view(r) == string_option_view(*value),
{
    match value {
        Some(s) => Some(s.as_str()),
        None => None,
    }
}

/// Whether a text holds nothing but white space.
pub fn is_blank_str(value: &str) -> (r: bool)
    ensures
        r == is_blank(value@),
{
    trim_str(value).is_empty()
}

} // verus!
