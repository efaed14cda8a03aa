//! What names and numerals are made of.

use crate::bytes::{begins_with, concatenation, is_all_digits, same_bytes, tail, to_vec};
use crate::catacomb_names::{
    artifact_token, decode_marker, encode_marker, generation_name, hexadecimal, is_generation_name,
    is_hex_field, is_marker_temporary_name, is_stage_name, is_token, joined,
    law_names_of_tokens_are_recognized, marker_temporary_name, recovery_name, reservation_name,
    stage_name,
};
use crate::decimal::{
    append_decimal, decimal, decimal_text, decimal_value, is_canonical, parse_u32, push_decimal,
};
use vstd::prelude::*;

verus! {

/// A byte string begins with another where each byte of the other stands in its place.
pub proof fn law_prefixes_agree_byte_by_byte(bytes: &[u8], prefix: &[u8], r: bool)
    requires
        call_ensures(begins_with, (bytes, prefix), r),
    ensures
        r <==> prefix@.len() <= bytes@.len() && forall|i: int|
            0 <= i < prefix@.len() ==> #[trigger] bytes@[i] == prefix@[i],
{
    if prefix@.len() <= bytes@.len() {
        let head = bytes@.subrange(0, prefix@.len() as int);
        if r {
            assert forall|i: int| 0 <= i < prefix@.len() implies #[trigger] bytes@[i]
                == prefix@[i] by {
                assert(head[i] == prefix@[i]);
            }
        } else if forall|i: int| 0 <= i < prefix@.len() ==> #[trigger] bytes@[i] == prefix@[i] {
            assert(head =~= prefix@);
        }
    }
}

/// Two byte strings are the same where they are as long and agree in every place.
pub proof fn law_bytes_agree_place_by_place(a: &[u8], b: &[u8], r: bool)
    requires
        call_ensures(same_bytes, (a, b), r),
    ensures
        r <==> a@.len() == b@.len() && forall|i: int|
            0 <= i < a@.len() ==> #[trigger] a@[i] == b@[i],
{
    if a@.len() == b@.len() && (forall|i: int| 0 <= i < a@.len() ==> #[trigger] a@[i] == b@[i]) {
        assert(a@ =~= b@);
    }
}

/// A concatenation is its parts, a tail is what follows, and a copy is the same.
pub proof fn law_byte_strings_are_cut_and_joined(
    first: &[u8],
    second: &[u8],
    both: Vec<u8>,
    start: usize,
    rest: &[u8],
    copy: Vec<u8>,
    digits: bool,
)
    requires
        start <= first@.len(),
        call_ensures(concatenation, (first, second), both),
        call_ensures(tail, (first, start), rest),
        call_ensures(to_vec, (first,), copy),
        call_ensures(is_all_digits, (first,), digits),
    ensures
        both@.len() == first@.len() + second@.len(),
        forall|i: int| 0 <= i < first@.len() ==> #[trigger] both@[i] == first@[i],
        forall|i: int| 0 <= i < second@.len() ==> both@[first@.len() + i] == #[trigger] second@[i],
        rest@.len() == first@.len() - start,
        forall|i: int| 0 <= i < rest@.len() ==> #[trigger] rest@[i] == first@[start + i],
        copy@ == first@,
        digits <==> forall|i: int| 0 <= i < first@.len() ==> 48 <= #[trigger] first@[i] <= 57,
{
    if forall|i: int| 0 <= i < first@.len() ==> 48 <= #[trigger] first@[i] <= 57 {
        assert(digits);
    }
    if digits {
        assert forall|i: int| 0 <= i < first@.len() implies 48 <= #[trigger] first@[i] <= 57 by {
            assert(crate::bytes::is_digit(first@[i]));
        }
    }
}

/// `0` to `9`, `a` to `f` or `A` to `F`.
pub open spec fn is_hexadecimal(byte: u8) -> bool {
    48 <= byte <= 57 || 97 <= byte <= 102 || 65 <= byte <= 70
}

/// Whether the bytes are hexadecimal digits but for two hyphens, at `first` and at
/// `second`, before, between and behind which digits stand.
pub open spec fn is_split_at(token: Seq<u8>, first: int, second: int) -> bool {
    &&& 0 < first && first + 1 < second && second + 1 < token.len()
    &&& token[first] == 45 && token[second] == 45
    &&& forall|i: int|
        0 <= i < token.len() && i != first && i != second ==> is_hexadecimal(#[trigger] token[i])
}

/// Whether the bytes are three hexadecimal numbers, joined by hyphens.
pub open spec fn has_three_fields(token: Seq<u8>) -> bool {
    exists|first: int, second: int| #[trigger] is_split_at(token, first, second)
}

/// Tokens have three fields.
pub proof fn lemma_tokens_have_three_fields(token: Seq<u8>)
    ensures
        crate::catacomb_names::is_token_text(token) <==> has_three_fields(token),
{
    if crate::catacomb_names::is_token_text(token) {
        let (a, b, c) = choose|a: Seq<u8>, b: Seq<u8>, c: Seq<u8>|
            is_hex_field(a) && is_hex_field(b) && is_hex_field(c) && token == #[trigger] joined(
                a,
                b,
                c,
            );
        let first: int = a.len() as int;
        let second: int = a.len() + 1int + b.len();
        assert forall|i: int|
            0 <= i < token.len() && i != first && i != second implies is_hexadecimal(
            #[trigger] token[i],
        ) by {
            if i < first {
                assert(token[i] == a[i]);
            } else if i < second {
                assert(token[i] == b[i - first - 1]);
            } else {
                assert(token[i] == c[i - second - 1]);
            }
        }
        assert(is_split_at(token, first, second));
    }
    if has_three_fields(token) {
        let (first, second) = choose|first: int, second: int|
            #[trigger] is_split_at(token, first, second);
        let a = token.subrange(0, first);
        let b = token.subrange(first + 1, second);
        let c = token.subrange(second + 1, token.len() as int);
        assert forall|i: int| 0 <= i < a.len() implies crate::catacomb_names::is_hex_digit(
            #[trigger] a[i],
        ) by {
            assert(is_hexadecimal(token[i]));
        }
        assert forall|i: int| 0 <= i < b.len() implies crate::catacomb_names::is_hex_digit(
            #[trigger] b[i],
        ) by {
            assert(is_hexadecimal(token[first + 1 + i]));
        }
        assert forall|i: int| 0 <= i < c.len() implies crate::catacomb_names::is_hex_digit(
            #[trigger] c[i],
        ) by {
            assert(is_hexadecimal(token[second + 1 + i]));
        }
        assert(token =~= joined(a, b, c));
    }
}

/// A token is three hexadecimal numbers, joined by hyphens.
pub proof fn law_tokens_have_three_fields(token: &[u8], r: bool)
    requires
        call_ensures(is_token, (token,), r),
    ensures
        r <==> has_three_fields(token@),
{
    lemma_tokens_have_three_fields(token@);
}

/// `pair-`.
pub open spec fn pair_bytes() -> Seq<u8> {
    seq![112u8, 97, 105, 114, 45]
}

/// `.stage-`.
pub open spec fn stage_bytes() -> Seq<u8> {
    seq![46u8, 115, 116, 97, 103, 101, 45]
}

/// `.recovery-`.
pub open spec fn recovery_bytes() -> Seq<u8> {
    seq![46u8, 114, 101, 99, 111, 118, 101, 114, 121, 45]
}

/// `.active-`.
pub open spec fn temporary_bytes() -> Seq<u8> {
    seq![46u8, 97, 99, 116, 105, 118, 101, 45]
}

/// `.tmp`.
pub open spec fn suffix_bytes() -> Seq<u8> {
    seq![46u8, 116, 109, 112]
}

/// Everything of one transaction is named by its token behind a prefix of its own: `pair-`
/// for the generation, `.stage-` for the stage, `.recovery-` for the reservation, and
/// `.active-` and `.tmp` around it for the temporary marker.
pub proof fn law_names_carry_their_token(
    token: &[u8],
    generation: Vec<u8>,
    stage: Vec<u8>,
    reservation: Vec<u8>,
    temporary: Vec<u8>,
)
    requires
        call_ensures(generation_name, (token,), generation),
        call_ensures(stage_name, (token,), stage),
        call_ensures(reservation_name, (token,), reservation),
        call_ensures(marker_temporary_name, (token,), temporary),
    ensures
        generation@ == pair_bytes() + token@,
        stage@ == stage_bytes() + token@,
        reservation@ == recovery_bytes() + token@,
        temporary@ == temporary_bytes() + token@ + suffix_bytes(),
{
    assert(generation@ =~= pair_bytes() + token@);
    assert(stage@ =~= stage_bytes() + token@);
    assert(reservation@ =~= recovery_bytes() + token@);
    assert(temporary@ =~= temporary_bytes() + token@ + suffix_bytes());
}

/// A name is a generation's, a stage's or a temporary marker's exactly where it is the
/// name of some token; a generation's reservation is that of its token.
pub proof fn law_names_are_recognized_by_their_token(
    name: &[u8],
    generation: bool,
    stage: bool,
    temporary: bool,
    reservation: Vec<u8>,
)
    requires
        call_ensures(is_generation_name, (name,), generation),
        call_ensures(is_stage_name, (name,), stage),
        call_ensures(is_marker_temporary_name, (name,), temporary),
        call_ensures(recovery_name, (name,), reservation),
    ensures
        generation <==> exists|token: Seq<u8>| #[trigger]
            has_three_fields(token) && name@ == pair_bytes() + token,
        stage <==> exists|token: Seq<u8>| #[trigger]
            has_three_fields(token) && name@ == stage_bytes() + token,
        temporary <==> exists|token: Seq<u8>| #[trigger]
            has_three_fields(token) && name@ == temporary_bytes() + token + suffix_bytes(),
        forall|token: Seq<u8>|
            name@ == #[trigger] (pair_bytes() + token) ==> reservation@ == recovery_bytes() + token,
{
    if generation {
        let token = name@.subrange(5, name@.len() as int);
        assert(name@ =~= name@.subrange(0, 5) + token);
        lemma_tokens_have_three_fields(token);
        assert(pair_bytes() =~= name@.subrange(0, 5));
        assert(has_three_fields(token) && name@ == pair_bytes() + token);
    }
    if stage {
        let token = name@.subrange(7, name@.len() as int);
        assert(name@ =~= name@.subrange(0, 7) + token);
        lemma_tokens_have_three_fields(token);
        assert(stage_bytes() =~= name@.subrange(0, 7));
        assert(has_three_fields(token) && name@ == stage_bytes() + token);
    }
    if temporary {
        let token = name@.subrange(8, name@.len() - 4);
        assert(name@ =~= name@.subrange(0, 8) + token + name@.subrange(
            name@.len() - 4,
            name@.len() as int,
        ));
        lemma_tokens_have_three_fields(token);
        assert(temporary_bytes() =~= name@.subrange(0, 8));
        assert(suffix_bytes() =~= name@.subrange(name@.len() - 4, name@.len() as int));
        assert(has_three_fields(token) && name@ == temporary_bytes() + token + suffix_bytes());
    }
    assert forall|token: Seq<u8>| #[trigger]
        has_three_fields(token) && name@ == pair_bytes() + token implies generation by {
        lemma_tokens_have_three_fields(token);
        law_names_of_tokens_are_recognized(token);
        assert(name@ =~= crate::catacomb_names::generation_of(token));
    }
    assert forall|token: Seq<u8>| #[trigger]
        has_three_fields(token) && name@ == stage_bytes() + token implies stage by {
        lemma_tokens_have_three_fields(token);
        law_names_of_tokens_are_recognized(token);
        assert(name@ =~= crate::catacomb_names::stage_of(token));
    }
    assert forall|token: Seq<u8>| #[trigger]
        has_three_fields(token) && name@
            == temporary_bytes() + token + suffix_bytes() implies temporary by {
        lemma_tokens_have_three_fields(token);
        law_names_of_tokens_are_recognized(token);
        assert(name@ =~= crate::catacomb_names::temporary_of(token));
    }
    assert forall|token: Seq<u8>| name@ == #[trigger] (pair_bytes() + token) implies reservation@
        == recovery_bytes() + token by {
        assert(name@.subrange(0, 5) =~= pair_bytes());
        assert(name@.subrange(5, name@.len() as int) =~= token);
        assert(reservation@ =~= recovery_bytes() + token);
    }
}

/// A generation's name is that of a token.
pub proof fn lemma_generations_are_names_of_tokens(name: Seq<u8>)
    ensures
        crate::catacomb_names::names_generation(name) <==> exists|token: Seq<u8>| #[trigger]
            has_three_fields(token) && name == pair_bytes() + token,
        crate::catacomb_names::names_generation(name) ==> has_three_fields(
            name.subrange(5, name.len() as int),
        ),
{
    if crate::catacomb_names::names_generation(name) {
        let token = name.subrange(5, name.len() as int);
        assert(name =~= name.subrange(0, 5) + token);
        lemma_tokens_have_three_fields(token);
        assert(pair_bytes() =~= name.subrange(0, 5));
        assert(has_three_fields(token) && name == pair_bytes() + token);
    }
    assert forall|token: Seq<u8>| #[trigger]
        has_three_fields(token) && name
            == pair_bytes() + token implies crate::catacomb_names::names_generation(name) by {
        lemma_tokens_have_three_fields(token);
        law_names_of_tokens_are_recognized(token);
        assert(name =~= crate::catacomb_names::generation_of(token));
    }
}

/// A stage's and a temporary marker's name are those of a token.
pub proof fn lemma_other_names_are_of_tokens(name: Seq<u8>)
    ensures
        crate::catacomb_names::names_stage(name) <==> exists|token: Seq<u8>| #[trigger]
            has_three_fields(token) && name == stage_bytes() + token,
        crate::catacomb_names::names_stage(name) ==> has_three_fields(
            name.subrange(7, name.len() as int),
        ),
        crate::catacomb_names::names_temporary(name) <==> exists|token: Seq<u8>| #[trigger]
            has_three_fields(token) && name == temporary_bytes() + token + suffix_bytes(),
{
    if crate::catacomb_names::names_stage(name) {
        let token = name.subrange(7, name.len() as int);
        assert(name =~= name.subrange(0, 7) + token);
        lemma_tokens_have_three_fields(token);
        assert(stage_bytes() =~= name.subrange(0, 7));
        assert(has_three_fields(token) && name == stage_bytes() + token);
    }
    if crate::catacomb_names::names_temporary(name) {
        let token = name.subrange(8, name.len() - 4);
        assert(name =~= name.subrange(0, 8) + token + name.subrange(
            name.len() - 4,
            name.len() as int,
        ));
        lemma_tokens_have_three_fields(token);
        assert(temporary_bytes() =~= name.subrange(0, 8));
        assert(suffix_bytes() =~= name.subrange(name.len() - 4, name.len() as int));
        assert(has_three_fields(token) && name == temporary_bytes() + token + suffix_bytes());
    }
    assert forall|token: Seq<u8>| #[trigger]
        has_three_fields(token) && name
            == stage_bytes() + token implies crate::catacomb_names::names_stage(name) by {
        lemma_tokens_have_three_fields(token);
        law_names_of_tokens_are_recognized(token);
        assert(name =~= crate::catacomb_names::stage_of(token));
    }
    assert forall|token: Seq<u8>| #[trigger]
        has_three_fields(token) && name
            == temporary_bytes() + token + suffix_bytes() implies crate::catacomb_names::names_temporary(name) by {
        lemma_tokens_have_three_fields(token);
        law_names_of_tokens_are_recognized(token);
        assert(name =~= crate::catacomb_names::temporary_of(token));
    }
}

/// The digit's number: `0` to `9`, and `a` to `f` behind them.
pub open spec fn lower_digit(byte: u8) -> int {
    if byte <= 57 {
        byte - 48
    } else {
        byte - 87
    }
}

/// The number that lower-case hexadecimal digits stand for.
pub open spec fn sixteens(digits: Seq<u8>) -> int
    decreases digits.len(),
{
    if digits.len() == 0 {
        0
    } else {
        16 * sixteens(digits.drop_last()) + lower_digit(digits.last())
    }
}

/// Whether the bytes are lower-case hexadecimal digits without a superfluous zero.
pub open spec fn is_lower_numeral(digits: Seq<u8>) -> bool {
    &&& digits.len() > 0
    &&& digits.len() > 1 ==> digits[0] != 48
    &&& forall|i: int|
        0 <= i < digits.len() ==> 48 <= #[trigger] digits[i] <= 57 || 97 <= digits[i] <= 102
}

proof fn lemma_hexadecimal_counts_sixteens(n: nat)
    ensures
        sixteens(hexadecimal(n)) == n,
        is_lower_numeral(hexadecimal(n)),
        n > 0 ==> hexadecimal(n)[0] != 48,
    decreases n,
{
    reveal_with_fuel(sixteens, 2);
    let digits = hexadecimal(n);
    if n < 16 {
        assert(digits.drop_last() =~= Seq::<u8>::empty());
    } else {
        lemma_hexadecimal_counts_sixteens(n / 16);
        let head = hexadecimal(n / 16);
        assert(digits.drop_last() =~= head);
        assert forall|i: int| 0 <= i < digits.len() implies 48 <= #[trigger] digits[i] <= 57 || 97
            <= digits[i] <= 102 by {
            if i < head.len() {
                assert(digits[i] == head[i]);
            }
        }
        assert(digits[0] == head[0]);
    }
}

/// Whether the token's fields are the numerals of the three numbers, in this order.
pub open spec fn names_numbers(token: Seq<u8>, first: int, second: int, numbers: (int, int, int)) -> bool {
    let a = token.subrange(0, first);
    let b = token.subrange(first + 1, second);
    let c = token.subrange(second + 1, token.len() as int);
    &&& is_split_at(token, first, second)
    &&& is_lower_numeral(a) && is_lower_numeral(b) && is_lower_numeral(c)
    &&& sixteens(a) == numbers.0 && sixteens(b) == numbers.1 && sixteens(c) == numbers.2
}

/// An artifact's token is the process, the nanoseconds and the sequence number, in
/// lower-case hexadecimal without superfluous zeros, joined by hyphens.
pub proof fn law_artifact_tokens_spell_their_numbers(
    process: u32,
    nanoseconds: u128,
    sequence: u64,
    r: Vec<u8>,
)
    requires
        call_ensures(artifact_token, (process, nanoseconds, sequence), r),
    ensures
        exists|first: int, second: int| #[trigger]
            names_numbers(
                r@,
                first,
                second,
                (process as int, nanoseconds as int, sequence as int),
            ),
{
    let a = hexadecimal(process as nat);
    let b = hexadecimal(nanoseconds as nat);
    let c = hexadecimal(sequence as nat);
    lemma_hexadecimal_counts_sixteens(process as nat);
    lemma_hexadecimal_counts_sixteens(nanoseconds as nat);
    lemma_hexadecimal_counts_sixteens(sequence as nat);
    let first: int = a.len() as int;
    let second: int = a.len() + 1int + b.len();
    assert(r@.subrange(0, first) =~= a);
    assert(r@.subrange(first + 1, second) =~= b);
    assert(r@.subrange(second + 1, r@.len() as int) =~= c);
    assert forall|i: int|
        0 <= i < r@.len() && i != first && i != second implies is_hexadecimal(#[trigger] r@[i]) by {
        if i < first {
            assert(r@[i] == a[i]);
        } else if i < second {
            assert(r@[i] == b[i - first - 1]);
        } else {
            assert(r@[i] == c[i - second - 1]);
        }
    }
    assert(names_numbers(
        r@,
        first,
        second,
        (process as int, nanoseconds as int, sequence as int),
    ));
}

/// A marker is the selected generation's name and a line's end; reading it gives the name
/// back exactly where it is a generation's.
pub proof fn law_markers_select_what_was_written(
    generation: &[u8],
    content: Vec<u8>,
    read: &[u8],
    is_generation: bool,
    decoded: Option<Vec<u8>>,
)
    requires
        call_ensures(encode_marker, (generation,), content),
        read@ == content@,
        call_ensures(is_generation_name, (generation,), is_generation),
        call_ensures(decode_marker, (read,), decoded),
    ensures
        content@ == generation@ + seq![10u8],
        decoded is Some <==> is_generation,
        decoded matches Some(name) ==> name@ == generation@,
{
    assert(content@ =~= generation@ + seq![10u8]);
    if let Some(name) = decoded {
        assert(content@.drop_last() =~= generation@);
        assert(content@.drop_last() =~= name@);
    }
}

/// What is no name and line's end selects nothing.
pub proof fn law_markers_without_a_line_select_nothing(content: &[u8], decoded: Option<Vec<u8>>)
    requires
        call_ensures(decode_marker, (content,), decoded),
    ensures
        decoded matches Some(name) ==> content@ == name@ + seq![10u8] && exists|token: Seq<u8>|
            #[trigger] has_three_fields(token) && name@ == pair_bytes() + token,
        content@.len() == 0 || content@.last() != 10 ==> decoded is None,
{
    if let Some(name) = decoded {
        assert(content@ =~= name@ + seq![10u8]);
        let token = name@.subrange(5, name@.len() as int);
        assert(name@ =~= name@.subrange(0, 5) + token);
        lemma_tokens_have_three_fields(token);
        assert(pair_bytes() =~= name@.subrange(0, 5));
        assert(has_three_fields(token) && name@ == pair_bytes() + token);
    }
}

/// The number that decimal digits stand for.
pub open spec fn tens(digits: Seq<u8>) -> int
    decreases digits.len(),
{
    if digits.len() == 0 {
        0
    } else {
        10 * tens(digits.drop_last()) + (digits.last() - 48)
    }
}

/// Whether the bytes are decimal digits without a superfluous zero.
pub open spec fn is_decimal_numeral(digits: Seq<u8>) -> bool {
    &&& digits.len() > 0
    &&& digits.len() > 1 ==> digits[0] != 48
    &&& forall|i: int| 0 <= i < digits.len() ==> 48 <= #[trigger] digits[i] <= 57
}

/// Digits stand for their number.
pub proof fn lemma_values_count_tens(digits: Seq<u8>)
    requires
        forall|i: int| 0 <= i < digits.len() ==> 48 <= #[trigger] digits[i] <= 57,
    ensures
        decimal_value(digits) == tens(digits),
    decreases digits.len(),
{
    if digits.len() > 0 {
        let head = digits.drop_last();
        assert forall|i: int| 0 <= i < head.len() implies 48 <= #[trigger] head[i] <= 57 by {
            assert(head[i] == digits[i]);
        }
        lemma_values_count_tens(head);
    }
}

/// Decimal numerals stand for their numbers.
pub proof fn lemma_decimals_count_tens(n: nat)
    ensures
        is_decimal_numeral(decimal(n)),
        tens(decimal(n)) == n,
{
    crate::decimal::lemma_decimal_is_numeral(n);
    assert forall|i: int| 0 <= i < decimal(n).len() implies 48 <= #[trigger] decimal(n)[i]
        <= 57 by {
        assert(crate::bytes::is_digit(decimal(n)[i]));
    }
    lemma_values_count_tens(decimal(n));
}

/// A numeral is that of its number.
pub proof fn lemma_numerals_are_their_numbers(digits: Seq<u8>)
    requires
        is_decimal_numeral(digits),
    ensures
        tens(digits) >= 0,
        decimal(tens(digits) as nat) == digits,
{
    lemma_values_count_tens(digits);
    assert forall|i: int| 0 <= i < digits.len() implies crate::bytes::is_digit(
        #[trigger] digits[i],
    ) by {
        assert(48 <= digits[i] <= 57);
    }
    crate::decimal::lemma_numeral_is_decimal(digits);
}

/// A number is appended as its decimal numeral, behind what stood there.
pub proof fn law_numbers_are_appended_as_numerals(out: &mut Vec<u8>, n: u64)
    requires
        call_ensures(push_decimal, (out, n), ()),
    ensures
        final(out)@.len() > old(out)@.len(),
        final(out)@.subrange(0, old(out)@.len() as int) == old(out)@,
        is_decimal_numeral(final(out)@.subrange(old(out)@.len() as int, final(out)@.len() as int)),
        tens(final(out)@.subrange(old(out)@.len() as int, final(out)@.len() as int)) == n,
{
    lemma_decimals_count_tens(n as nat);
    assert(final(out)@.subrange(0, old(out)@.len() as int) =~= old(out)@);
    assert(final(out)@.subrange(old(out)@.len() as int, final(out)@.len() as int) =~= decimal(
        n as nat,
    ));
}

/// Digits are read as the number that they stand for, where it fits; a numeral has at
/// least one digit, digits only, and no superfluous zero.
pub proof fn law_numerals_are_read_as_their_number(
    digits: &[u8],
    r: Option<u32>,
)
    requires
        forall|i: int| 0 <= i < digits@.len() ==> 48 <= #[trigger] digits@[i] <= 57,
        call_ensures(parse_u32, (digits,), r),
    ensures
        r is Some <==> tens(digits@) <= 4_294_967_295,
        r matches Some(value) ==> value == tens(digits@),
{
    lemma_values_count_tens(digits@);
}

/// What counts as a numeral.
pub proof fn law_numerals_have_no_superfluous_zero(digits: &[u8], r: bool)
    requires
        call_ensures(is_canonical, (digits,), r),
    ensures
        r <==> is_decimal_numeral(digits@),
{
    if r {
        assert forall|i: int| 0 <= i < digits@.len() implies 48 <= #[trigger] digits@[i] <= 57 by {
            assert(crate::bytes::is_digit(digits@[i]));
        }
    }
}

/// A number is appended as text with the same digits.
pub proof fn law_numbers_are_spelled_alike(out: &mut String, bytes: &mut Vec<u8>, n: u64)
    requires
        old(bytes)@.len() == 0,
        old(out)@.len() == 0,
        call_ensures(append_decimal, (out, n), ()),
        call_ensures(push_decimal, (bytes, n), ()),
    ensures
        final(out)@.len() == final(bytes)@.len(),
        forall|i: int|
            0 <= i < final(out)@.len() ==> #[trigger] final(out)@[i] == final(bytes)@[i] as char,
{
    lemma_texts_spell_numerals(n as nat);
    assert(final(out)@ =~= decimal_text(n as nat));
    assert(final(bytes)@ =~= decimal(n as nat));
}

/// Texts spell the same digits.
pub proof fn lemma_texts_spell_numerals(n: nat)
    ensures
        decimal_text(n).len() == decimal(n).len(),
        forall|i: int|
            0 <= i < decimal(n).len() ==> #[trigger] decimal_text(n)[i] == decimal(n)[i] as char,
    decreases n,
{
    if n >= 10 {
        lemma_texts_spell_numerals(n / 10);
        assert forall|i: int| 0 <= i < decimal(n).len() implies #[trigger] decimal_text(n)[i]
            == decimal(n)[i] as char by {
            if i < decimal(n / 10).len() {
                assert(decimal_text(n)[i] == decimal_text(n / 10)[i]);
                assert(decimal(n)[i] == decimal(n / 10)[i]);
            }
        }
    }
}

} // verus!
