//! Names inside a catacomb store.
//!
//! A token is three hexadecimal fields. Everything that one transaction makes
//! carries the transaction's token: its stage, its generation, its temporary
//! marker and its recovery reservation.

use crate::bytes::{begins_with, concatenation, has_prefix, rest_after, same_bytes, tail, to_vec};
use vstd::prelude::*;

verus! {

/// `active`, in ASCII: the marker that selects a generation.
pub open spec fn active_marker() -> Seq<u8> {
    seq![97u8, 99u8, 116u8, 105u8, 118u8, 101u8]
}

/// `pair-`, in ASCII.
pub open spec fn generation_prefix() -> Seq<u8> {
    seq![112u8, 97u8, 105u8, 114u8, 45u8]
}

/// `.stage-`, in ASCII.
pub open spec fn stage_prefix() -> Seq<u8> {
    seq![46u8, 115u8, 116u8, 97u8, 103u8, 101u8, 45u8]
}

/// `.recovery-`, in ASCII.
pub open spec fn recovery_prefix() -> Seq<u8> {
    seq![46u8, 114u8, 101u8, 99u8, 111u8, 118u8, 101u8, 114u8, 121u8, 45u8]
}

/// `.active-`, in ASCII.
pub open spec fn temporary_prefix() -> Seq<u8> {
    seq![46u8, 97u8, 99u8, 116u8, 105u8, 118u8, 101u8, 45u8]
}

/// `.tmp`, in ASCII.
pub open spec fn temporary_suffix() -> Seq<u8> {
    seq![46u8, 116u8, 109u8, 112u8]
}

/// The bytes of [`active_marker`].
pub fn active_marker_bytes() -> (r: [u8; 6])
    ensures
        r@ == active_marker(),
{
    let bytes: [u8; 6] = [97, 99, 116, 105, 118, 101];
    assert(bytes@ =~= active_marker());
    bytes
}

/// The bytes of [`generation_prefix`].
pub fn generation_prefix_bytes() -> (r: [u8; 5])
    ensures
        r@ == generation_prefix(),
{
    let bytes: [u8; 5] = [112, 97, 105, 114, 45];
    assert(bytes@ =~= generation_prefix());
    bytes
}

/// The bytes of [`stage_prefix`].
pub fn stage_prefix_bytes() -> (r: [u8; 7])
    ensures
        r@ == stage_prefix(),
{
    let bytes: [u8; 7] = [46, 115, 116, 97, 103, 101, 45];
    assert(bytes@ =~= stage_prefix());
    bytes
}

/// The bytes of [`recovery_prefix`].
pub fn recovery_prefix_bytes() -> (r: [u8; 10])
    ensures
        r@ == recovery_prefix(),
{
    let bytes: [u8; 10] = [46, 114, 101, 99, 111, 118, 101, 114, 121, 45];
    assert(bytes@ =~= recovery_prefix());
    bytes
}

/// The bytes of [`temporary_prefix`].
pub fn temporary_prefix_bytes() -> (r: [u8; 8])
    ensures
        r@ == temporary_prefix(),
{
    let bytes: [u8; 8] = [46, 97, 99, 116, 105, 118, 101, 45];
    assert(bytes@ =~= temporary_prefix());
    bytes
}

fn temporary_suffix_bytes() -> (r: [u8; 4])
    ensures
        r@ == temporary_suffix(),
{
    let bytes: [u8; 4] = [46, 116, 109, 112];
    assert(bytes@ =~= temporary_suffix());
    bytes
}

/// `0` to `9`, `a` to `f` or `A` to `F`.
pub open spec fn is_hex_digit(byte: u8) -> bool {
    (48 <= byte && byte <= 57) || (97 <= byte && byte <= 102) || (65 <= byte && byte <= 70)
}

/// One field of a token: at least one hexadecimal digit and nothing else.
pub open spec fn is_hex_field(field: Seq<u8>) -> bool {
    field.len() != 0 && forall|i: int| 0 <= i < field.len() ==> is_hex_digit(#[trigger] field[i])
}

/// Three fields joined by hyphens.
pub open spec fn joined(first: Seq<u8>, second: Seq<u8>, third: Seq<u8>) -> Seq<u8> {
    first.push(45u8) + second.push(45u8) + third
}

/// A token: three hexadecimal fields joined by hyphens.
pub open spec fn is_token_text(token: Seq<u8>) -> bool {
    exists|first: Seq<u8>, second: Seq<u8>, third: Seq<u8>|
        is_hex_field(first) && is_hex_field(second) && is_hex_field(third) && token
            == #[trigger] joined(first, second, third)
}

/// The generation of `token`.
pub open spec fn generation_of(token: Seq<u8>) -> Seq<u8> {
    generation_prefix() + token
}

/// The stage of `token`.
pub open spec fn stage_of(token: Seq<u8>) -> Seq<u8> {
    stage_prefix() + token
}

/// The recovery reservation of `token`.
pub open spec fn reservation_of(token: Seq<u8>) -> Seq<u8> {
    recovery_prefix() + token
}

/// The temporary marker of `token`.
pub open spec fn temporary_of(token: Seq<u8>) -> Seq<u8> {
    temporary_prefix() + token + temporary_suffix()
}

/// What follows the last of a temporary marker's prefix and precedes its suffix.
pub open spec fn temporary_token(name: Seq<u8>) -> Seq<u8> {
    name.subrange(8, name.len() - 4)
}

/// A generation's name.
pub open spec fn names_generation(name: Seq<u8>) -> bool {
    has_prefix(name, generation_prefix()) && is_token_text(rest_after(name, 5))
}

/// A stage's name.
pub open spec fn names_stage(name: Seq<u8>) -> bool {
    has_prefix(name, stage_prefix()) && is_token_text(rest_after(name, 7))
}

/// A temporary marker's name.
pub open spec fn names_temporary(name: Seq<u8>) -> bool {
    name.len() >= 12 && has_prefix(name, temporary_prefix()) && rest_after(name, name.len() - 4)
        == temporary_suffix() && is_token_text(temporary_token(name))
}

/// The first hyphen at or after `start`, or the end.
fn next_hyphen(bytes: &[u8], start: usize) -> (r: usize)
    requires
        start <= bytes@.len(),
    ensures
        start <= r <= bytes@.len(),
        r < bytes@.len() ==> bytes@[r as int] == 45u8,
        forall|i: int| start <= i < r ==> bytes@[i] != 45u8,
{
    let mut i: usize = start;
    while i < bytes.len()
        invariant
            start <= i <= bytes@.len(),
            forall|j: int| start <= j < i ==> bytes@[j] != 45u8,
        decreases bytes@.len() - i,
    {
        if bytes[i] == 45 {
            return i;
        }
        i += 1;
    }
    i
}

/// Whether `bytes[from..to]` is a field.
fn is_field(bytes: &[u8], from: usize, to: usize) -> (r: bool)
    requires
        from <= to <= bytes@.len(),
    ensures
        r == is_hex_field(bytes@.subrange(from as int, to as int)),
{
    let ghost field = bytes@.subrange(from as int, to as int);
    if from == to {
        return false;
    }
    let mut i: usize = from;
    while i < to
        invariant
            from <= i <= to <= bytes@.len(),
            field == bytes@.subrange(from as int, to as int),
            forall|j: int| 0 <= j < i - from ==> is_hex_digit(#[trigger] field[j]),
        decreases to - i,
    {
        let byte = bytes[i];
        assert(field[i - from] == byte);
        let digit = (48 <= byte && byte <= 57) || (97 <= byte && byte <= 102) || (65 <= byte && byte
            <= 70);
        if !digit {
            return false;
        }
        i += 1;
    }
    true
}

/// Whether `token` is three hexadecimal fields joined by hyphens.
pub fn is_token(token: &[u8]) -> (r: bool)
    ensures
        r == is_token_text(token@),
{
    let first: usize = next_hyphen(token, 0);
    proof {
        if is_token_text(token@) {
            let (a, b, c) = choose|a: Seq<u8>, b: Seq<u8>, c: Seq<u8>|
                is_hex_field(a) && is_hex_field(b) && is_hex_field(c) && token@
                    == #[trigger] joined(a, b, c);
            lemma_hyphens_of_token(token@, a, b, c);
        }
    }
    if first == token.len() {
        return false;
    }
    let second: usize = next_hyphen(token, first + 1);
    if second == token.len() {
        return false;
    }
    let third: usize = next_hyphen(token, second + 1);
    if third != token.len() {
        return false;
    }
    let r = is_field(token, 0, first) && is_field(token, first + 1, second) && is_field(
        token,
        second + 1,
        token.len(),
    );
    proof {
        let a = token@.subrange(0, first as int);
        let b = token@.subrange(first + 1, second as int);
        let c = token@.subrange(second + 1, token@.len() as int);
        assert(token@ =~= joined(a, b, c));
        if is_token_text(token@) {
            let (x, y, z) = choose|x: Seq<u8>, y: Seq<u8>, z: Seq<u8>|
                is_hex_field(x) && is_hex_field(y) && is_hex_field(z) && token@
                    == #[trigger] joined(x, y, z);
            lemma_hyphens_of_token(token@, x, y, z);
            assert(a =~= x && b =~= y && c =~= z);
        }
    }
    r
}

/// A token's hyphens are exactly the two that join its fields.
proof fn lemma_hyphens_of_token(token: Seq<u8>, first: Seq<u8>, second: Seq<u8>, third: Seq<u8>)
    requires
        is_hex_field(first),
        is_hex_field(second),
        is_hex_field(third),
        token == joined(first, second, third),
    ensures
        token.len() == first.len() + second.len() + third.len() + 2,
        token[first.len() as int] == 45u8,
        token[first.len() as int + 1 + second.len()] == 45u8,
        forall|i: int|
            0 <= i < token.len() && i != first.len() && i != first.len() + 1 + second.len()
                ==> #[trigger] token[i] != 45u8,
        token.subrange(0, first.len() as int) == first,
        token.subrange(first.len() as int + 1, first.len() as int + 1 + second.len()) == second,
        token.subrange(first.len() as int + second.len() + 2, token.len() as int) == third,
{
    assert(token.subrange(0, first.len() as int) =~= first);
    assert(token.subrange(first.len() as int + 1, first.len() as int + 1 + second.len()) =~= second);
    assert(token.subrange(first.len() as int + second.len() + 2, token.len() as int) =~= third);
    assert forall|i: int|
        0 <= i < token.len() && i != first.len() && i != first.len() + 1
            + second.len() implies #[trigger] token[i] != 45u8 by {
        if i < first.len() {
            assert(token[i] == first[i]);
        } else if i < first.len() + 1 + second.len() {
            assert(token[i] == second[i - first.len() - 1]);
        } else {
            assert(token[i] == third[i - first.len() - second.len() - 2]);
        }
    }
}

/// Whether `name` is a generation's name.
pub fn is_generation_name(name: &[u8]) -> (r: bool)
    ensures
        r == names_generation(name@),
{
    let prefix = generation_prefix_bytes();
    begins_with(name, prefix.as_slice()) && is_token(tail(name, 5))
}

/// Whether `name` is a stage's name.
pub fn is_stage_name(name: &[u8]) -> (r: bool)
    ensures
        r == names_stage(name@),
{
    let prefix = stage_prefix_bytes();
    begins_with(name, prefix.as_slice()) && is_token(tail(name, 7))
}

/// Whether `name` is a temporary marker's name.
pub fn is_marker_temporary_name(name: &[u8]) -> (r: bool)
    ensures
        r == names_temporary(name@),
{
    let prefix = temporary_prefix_bytes();
    let suffix = temporary_suffix_bytes();
    name.len() >= 12 && begins_with(name, prefix.as_slice()) && same_bytes(
        tail(name, name.len() - 4),
        suffix.as_slice(),
    ) && is_token(vstd::slice::slice_subrange(name, 8, name.len() - 4))
}

/// The generation's name of `token`.
pub fn generation_name(token: &[u8]) -> (r: Vec<u8>)
    ensures
        r@ == generation_of(token@),
{
    concatenation(generation_prefix_bytes().as_slice(), token)
}

/// The stage's name of `token`.
pub fn stage_name(token: &[u8]) -> (r: Vec<u8>)
    ensures
        r@ == stage_of(token@),
{
    concatenation(stage_prefix_bytes().as_slice(), token)
}

/// The temporary marker's name of `token`.
pub fn marker_temporary_name(token: &[u8]) -> (r: Vec<u8>)
    ensures
        r@ == temporary_of(token@),
{
    let head = concatenation(temporary_prefix_bytes().as_slice(), token);
    concatenation(head.as_slice(), temporary_suffix_bytes().as_slice())
}

/// The recovery reservation's name of `token`.
pub fn reservation_name(token: &[u8]) -> (r: Vec<u8>)
    ensures
        r@ == reservation_of(token@),
{
    concatenation(recovery_prefix_bytes().as_slice(), token)
}

/// The recovery reservation's name of a generation: that of its token, or of no
/// token where the name is not a generation's.
pub fn recovery_name(generation: &[u8]) -> (r: Vec<u8>)
    ensures
        r@ == reservation_of(
            if has_prefix(generation@, generation_prefix()) {
                rest_after(generation@, 5)
            } else {
                Seq::empty()
            },
        ),
{
    if begins_with(generation, generation_prefix_bytes().as_slice()) {
        reservation_name(tail(generation, 5))
    } else {
        let nothing: Vec<u8> = Vec::new();
        assert(nothing@ =~= Seq::<u8>::empty());
        reservation_name(nothing.as_slice())
    }
}

/// The names that a token gives are recognized as what they are, and a
/// generation's reservation is its token's.
pub proof fn law_names_of_tokens_are_recognized(token: Seq<u8>)
    requires
        is_token_text(token),
    ensures
        names_generation(generation_of(token)),
        names_stage(stage_of(token)),
        names_temporary(temporary_of(token)),
        rest_after(generation_of(token), 5) == token,
        rest_after(stage_of(token), 7) == token,
        rest_after(reservation_of(token), 10) == token,
        temporary_token(temporary_of(token)) == token,
{
    let generation = generation_of(token);
    assert(generation.subrange(0, 5) =~= generation_prefix());
    assert(rest_after(generation, 5) =~= token);
    let stage = stage_of(token);
    assert(stage.subrange(0, 7) =~= stage_prefix());
    assert(rest_after(stage, 7) =~= token);
    let reservation = reservation_of(token);
    assert(rest_after(reservation, 10) =~= token);
    let temporary = temporary_of(token);
    assert(temporary.subrange(0, 8) =~= temporary_prefix());
    assert(temporary_token(temporary) =~= token);
    assert(rest_after(temporary, temporary.len() - 4) =~= temporary_suffix());
}

/// A name is a generation's for at most one token, and a name that is a
/// generation's is no stage's and no temporary marker's.
pub proof fn law_names_identify_their_token(name: Seq<u8>, token: Seq<u8>)
    ensures
        names_generation(name) ==> (name == generation_of(token) <==> token == rest_after(name, 5)),
        names_generation(name) ==> !names_stage(name) && !names_temporary(name) && name
            != active_marker() && !has_prefix(name, recovery_prefix()),
        names_stage(name) ==> !names_temporary(name) && name != active_marker(),
{
    if has_prefix(name, generation_prefix()) {
        assert(name[0] == name.subrange(0, 5)[0]);
        assert(name =~= generation_prefix() + rest_after(name, 5));
        assert(rest_after(generation_of(token), 5) =~= token);
    }
    if has_prefix(name, stage_prefix()) {
        assert(name[0] == name.subrange(0, 7)[0]);
        assert(name[1] == name.subrange(0, 7)[1]);
    }
    if has_prefix(name, temporary_prefix()) {
        assert(name[0] == name.subrange(0, 8)[0]);
        assert(name[1] == name.subrange(0, 8)[1]);
    }
    if has_prefix(name, recovery_prefix()) {
        assert(name[0] == name.subrange(0, 10)[0]);
    }
    assert(active_marker()[0] == 97u8);
}

/// The lower-case hexadecimal numeral of `n`.
pub open spec fn hexadecimal(n: nat) -> Seq<u8>
    decreases n,
{
    if n < 16 {
        seq![hex_digit(n)]
    } else {
        hexadecimal(n / 16).push(hex_digit(n % 16))
    }
}

/// The digit of a number below sixteen.
pub open spec fn hex_digit(n: nat) -> u8 {
    if n < 10 {
        (48 + n) as u8
    } else {
        (87 + n) as u8
    }
}

/// Hexadecimal numerals are fields of tokens.
proof fn lemma_hexadecimal_is_field(n: nat)
    ensures
        is_hex_field(hexadecimal(n)),
    decreases n,
{
    if n >= 16 {
        lemma_hexadecimal_is_field(n / 16);
        let head = hexadecimal(n / 16);
        let field = hexadecimal(n);
        assert forall|i: int| 0 <= i < field.len() implies is_hex_digit(#[trigger] field[i]) by {
            if i < head.len() {
                assert(field[i] == head[i]);
            }
        }
    }
}

fn push_hexadecimal(out: &mut Vec<u8>, n: u128)
    ensures
        final(out)@ == old(out)@ + hexadecimal(n as nat),
    decreases n,
{
    if n >= 16 {
        push_hexadecimal(out, n / 16);
    }
    let low: u8 = (n % 16) as u8;
    let digit: u8 = if low < 10 {
        48 + low
    } else {
        87 + low
    };
    out.push(digit);
    assert(out@ =~= old(out)@ + hexadecimal(n as nat));
}

/// The number that lower-case hexadecimal digits stand for.
spec fn hex_value(digits: Seq<u8>) -> nat
    decreases digits.len(),
{
    if digits.len() == 0 {
        0
    } else {
        16 * hex_value(digits.drop_last()) + (if digits.last() <= 57 {
            (digits.last() - 48) as nat
        } else {
            (digits.last() - 87) as nat
        })
    }
}

proof fn lemma_hexadecimal_value(n: nat)
    ensures
        hex_value(hexadecimal(n)) == n,
    decreases n,
{
    reveal_with_fuel(hex_value, 2);
    let digits = hexadecimal(n);
    if n < 16 {
        assert(digits.drop_last() =~= Seq::<u8>::empty());
    } else {
        lemma_hexadecimal_value(n / 16);
        assert(digits.drop_last() =~= hexadecimal(n / 16));
    }
}

/// Tokens made from different numbers are different, so two transactions of one
/// process share no name.
pub proof fn law_tokens_identify_their_numbers(a: nat, b: nat, c: nat, x: nat, y: nat, z: nat)
    requires
        joined(hexadecimal(a), hexadecimal(b), hexadecimal(c)) == joined(
            hexadecimal(x),
            hexadecimal(y),
            hexadecimal(z),
        ),
    ensures
        a == x,
        b == y,
        c == z,
{
    let token = joined(hexadecimal(a), hexadecimal(b), hexadecimal(c));
    lemma_hexadecimal_is_field(a);
    lemma_hexadecimal_is_field(b);
    lemma_hexadecimal_is_field(c);
    lemma_hexadecimal_is_field(x);
    lemma_hexadecimal_is_field(y);
    lemma_hexadecimal_is_field(z);
    lemma_hyphens_of_token(token, hexadecimal(a), hexadecimal(b), hexadecimal(c));
    lemma_hyphens_of_token(token, hexadecimal(x), hexadecimal(y), hexadecimal(z));
    lemma_hexadecimal_value(a);
    lemma_hexadecimal_value(b);
    lemma_hexadecimal_value(c);
    lemma_hexadecimal_value(x);
    lemma_hexadecimal_value(y);
    lemma_hexadecimal_value(z);
}

/// A token from the process, the time in nanoseconds and a sequence number.
pub fn artifact_token(process: u32, nanoseconds: u128, sequence: u64) -> (r: Vec<u8>)
    ensures
        r@ == joined(
            hexadecimal(process as nat),
            hexadecimal(nanoseconds as nat),
            hexadecimal(sequence as nat),
        ),
        is_token_text(r@),
{
    let mut token: Vec<u8> = Vec::new();
    push_hexadecimal(&mut token, process as u128);
    token.push(45);
    push_hexadecimal(&mut token, nanoseconds);
    token.push(45);
    push_hexadecimal(&mut token, sequence as u128);
    proof {
        lemma_hexadecimal_is_field(process as nat);
        lemma_hexadecimal_is_field(nanoseconds as nat);
        lemma_hexadecimal_is_field(sequence as nat);
        assert(token@ =~= joined(
            hexadecimal(process as nat),
            hexadecimal(nanoseconds as nat),
            hexadecimal(sequence as nat),
        ));
    }
    token
}

/// The content of a marker that selects `generation`.
pub open spec fn marker_content(generation: Seq<u8>) -> Seq<u8> {
    generation.push(10u8)
}

/// Writes the content of a marker that selects `generation`.
pub fn encode_marker(generation: &[u8]) -> (r: Vec<u8>)
    ensures
        r@ == marker_content(generation@),
{
    let mut content = to_vec(generation);
    content.push(10);
    content
}

/// The generation that a marker's content selects, if it selects one.
pub fn decode_marker(content: &[u8]) -> (r: Option<Vec<u8>>)
    ensures
        r matches Some(name) ==> names_generation(name@) && content@ == marker_content(name@),
        r is None ==> forall|selected: Seq<u8>|
            names_generation(selected) ==> content@ != #[trigger] marker_content(selected),
{
    proof {
        assert forall|name: Seq<u8>| content@ == #[trigger] marker_content(name) implies {
            &&& content@.len() != 0
            &&& content@.last() == 10u8
            &&& content@.subrange(0, content@.len() - 1) == name
        } by {
            assert(content@.subrange(0, content@.len() - 1) =~= name);
        }
    }
    if content.len() == 0 {
        return None;
    }
    if content[content.len() - 1] != 10 {
        return None;
    }
    let name = vstd::slice::slice_subrange(content, 0, content.len() - 1);
    if !is_generation_name(name) {
        return None;
    }
    assert(content@ =~= marker_content(name@));
    Some(to_vec(name))
}

} // verus!
