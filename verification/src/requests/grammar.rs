//! The grammar of a frame: fields and literal bytes in a fixed order, read
//! from left to right without looking back, and written in the same order.

use crate::error::{Error, Malformed};
use crate::formats::{lemma_admitted_fits, lemma_read_text, lemma_text_width, Field};
use vstd::prelude::*;

verus! {

/// The byte that ends every frame: `#`.
pub const TERMINATOR: u8 = 35;

/// The byte that parts degrees from minutes.
pub const DEGREE: u8 = 0xDF;

/// ASCII `:`.
pub const COLON: u8 = 58;

/// ASCII `/`.
pub const SLASH: u8 = 47;

/// ASCII `.`.
pub const POINT: u8 = 46;

/// ASCII `'`.
pub const PRIME: u8 = 39;

/// ASCII space.
pub const SPACE: u8 = 32;

/// ASCII `S`, the first letter of every command that sets a value.
pub const SET: u8 = 83;

/// One step of a grammar.
pub enum Token {
    /// A numeric field.
    Field(Field),
    /// One byte that must stand there as it is.
    Literal(u8),
}

impl Token {
    /// How many bytes the token takes.
    pub open spec fn width(self) -> nat {
        match self {
            Token::Field(field) => field.width() as nat,
            Token::Literal(_) => 1,
        }
    }
}

/// What looking for the literal `byte` at offset `at` of `input` gives.
pub open spec fn literal_at(byte: u8, input: Seq<u8>, at: nat) -> Result<(), Error> {
    if input.len() <= at {
        Err(Error::incomplete(input.len(), (at + 1 - input.len()) as nat))
    } else if input[at as int] != byte {
        Err(
            Error::Format {
                cause: Malformed::Literal { expected: byte, found: input[at as int] },
                inspected: (at + 1) as usize,
            },
        )
    } else {
        Ok(())
    }
}

/// Where reading stands after the first `n` tokens of `grammar`: the values
/// of the fields read so far, in order, and the offset of the next byte; or
/// the error of the first token that failed, after which nothing is read.
pub open spec fn scan_prefix(grammar: Seq<Token>, input: Seq<u8>, n: nat) -> Result<
    (Seq<int>, nat),
    Error,
>
    decreases n,
{
    if n == 0 {
        Ok((Seq::empty(), 0))
    } else {
        match scan_prefix(grammar, input, (n - 1) as nat) {
            Err(e) => Err(e),
            Ok((values, at)) => match grammar[n - 1] {
                Token::Field(field) => match field.read(input, at) {
                    Ok(value) => Ok((values.push(value), at + field.width() as nat)),
                    Err(e) => Err(e),
                },
                Token::Literal(byte) => match literal_at(byte, input, at) {
                    Ok(()) => Ok((values, at + 1)),
                    Err(e) => Err(e),
                },
            },
        }
    }
}

/// What reading `input` by `grammar` gives: the values of its fields, in
/// order, or the first error met. Bytes behind the last token are not looked
/// at.
pub open spec fn scan(grammar: Seq<Token>, input: Seq<u8>) -> Result<Seq<int>, Error> {
    match scan_prefix(grammar, input, grammar.len()) {
        Ok((values, _)) => Ok(values),
        Err(e) => Err(e),
    }
}

/// Reading by a grammar fails on the bytes alone: with a `Format` or a
/// how many of the values went into them.
pub open spec fn emit_prefix(grammar: Seq<Token>, values: Seq<int>, n: nat) -> (Seq<u8>, nat)
    decreases n,
{
    if n == 0 {
        (Seq::empty(), 0)
    } else {
        let (bytes, used) = emit_prefix(grammar, values, (n - 1) as nat);
        match grammar[n - 1] {
            Token::Field(field) => (bytes + field.text_of(values[used as int]), used + 1),
            Token::Literal(byte) => (bytes.push(byte), used),
        }
    }
}

/// The whole frame that `grammar` writes for `values`.
pub open spec fn emit(grammar: Seq<Token>, values: Seq<int>) -> Seq<u8> {
    emit_prefix(grammar, values, grammar.len()).0
}

/// The frame without its last token, the terminator.
pub open spec fn emit_body(grammar: Seq<Token>, values: Seq<int>) -> Seq<u8> {
    emit_prefix(grammar, values, (grammar.len() - 1) as nat).0
}

/// Whether `values` has one value for each field of the first `n` tokens of
/// `grammar`, each within its field's range; `Some` of their number if so.
pub open spec fn fill_prefix(grammar: Seq<Token>, values: Seq<int>, n: nat) -> Option<nat>
    decreases n,
{
    if n == 0 {
        Some(0)
    } else {
        match fill_prefix(grammar, values, (n - 1) as nat) {
            None => None,
            Some(used) => match grammar[n - 1] {
                Token::Field(field) => if used < values.len() && field.admits(
                    values[used as int],
                ) {
                    Some(used + 1)
                } else {
                    None
                },
                Token::Literal(_) => Some(used),
            },
        }
    }
}

/// Whether `values` are values for the fields of `grammar`: as many as it has
/// fields, each within its field's range.
pub open spec fn fills(grammar: Seq<Token>, values: Seq<int>) -> bool {
    fill_prefix(grammar, values, grammar.len()) == Some(values.len())
}

/// The frame of a command that sets a value: `:`, the two letters of the
/// How many bytes the first `n` tokens of `grammar` take.
pub open spec fn width_prefix(grammar: Seq<Token>, n: nat) -> nat
    decreases n,
{
    if n == 0 {
        0
    } else {
        width_prefix(grammar, (n - 1) as nat) + grammar[n - 1].width()
    }
}

/// How many bytes a frame of `grammar` takes.
pub open spec fn frame_width(grammar: Seq<Token>) -> nat {
    width_prefix(grammar, grammar.len())
}

/// Reading that succeeds has taken exactly the width of the tokens read, and
/// command, a space, the value as `frame` holds it, terminator included.
pub open spec fn set_frame(first: u8, second: u8, frame: Seq<u8>) -> Seq<u8> {
    seq![COLON, first, second, SPACE] + frame
}

/// The frame of a command that carries no value: `:`, the command's name,
/// and the terminator.
pub open spec fn bare_frame(name: Seq<u8>) -> Seq<u8> {
    seq![COLON] + name + seq![TERMINATOR]
}

/// Builds the command that sets a value, from the two letters of the command
/// Looks for the literal `byte` at offset `at` of `input`.
pub(crate) fn expect(input: &[u8], at: usize, byte: u8) -> (r: Result<(), Error>)
    requires
        at <= input.len(),
    ensures
        r == literal_at(byte, input@, at as nat),
{
    if input.len() == at {
        return Err(
            Error::Format { cause: Malformed::Incomplete { needed: 1 }, inspected: input.len() },
        );
    }
    let found = input[at];
    if found != byte {
        return Err(
            Error::Format {
                cause: Malformed::Literal { expected: byte, found },
                inspected: at + 1,
            },
        );
    }
    Ok(())
}

/// and the value's bytes without their terminator.
pub fn set_command(first: u8, second: u8, body: &[u8]) -> (out: Vec<u8>)
    ensures
        out@ == set_frame(first, second, body@.push(TERMINATOR)),
{
    let mut out = Vec::new();
    out.push(COLON);
    out.push(first);
    out.push(second);
    out.push(SPACE);
    let mut n: usize = 0;
    while n < body.len()
        invariant
            n <= body.len(),
            out@ == seq![COLON, first, second, SPACE] + body@.take(n as int),
        decreases body.len() - n,
    {
        out.push(body[n]);
        n += 1;
    }
    out.push(TERMINATOR);
    out
}

/// Builds the command that carries no value, from its name.
pub fn bare_command(name: &[u8]) -> (out: Vec<u8>)
    ensures
        out@ == bare_frame(name@),
{
    let mut out = Vec::new();
    out.push(COLON);
    let mut n: usize = 0;
    while n < name.len()
        invariant
            n <= name.len(),
            out@ == seq![COLON] + name@.take(n as int),
        decreases name.len() - n,
    {
        out.push(name[n]);
        n += 1;
    }
    out.push(TERMINATOR);
    out
}

/// `Boundary` error, never with one of the stream or of the mount.
pub proof fn lemma_scan_errors(grammar: Seq<Token>, input: Seq<u8>, n: nat)
    ensures
        scan_prefix(grammar, input, n) matches Err(e) ==> e is Format || e is Boundary,
    decreases n,
{
    if n > 0 {
        lemma_scan_errors(grammar, input, (n - 1) as nat);
    }
}

/// What the first `n` tokens of `grammar` write for `values`: the bytes, and
/// the input is at least that long.
pub proof fn lemma_scan_consumes(grammar: Seq<Token>, input: Seq<u8>, n: nat)
    ensures
        scan_prefix(grammar, input, n) matches Ok((_, at)) ==> at == width_prefix(grammar, n)
            && at <= input.len(),
    decreases n,
{
    if n > 0 {
        lemma_scan_consumes(grammar, input, (n - 1) as nat);
    }
}

/// Writing fills exactly the width of the tokens written.
pub proof fn lemma_emit_width(grammar: Seq<Token>, values: Seq<int>, n: nat)
    ensures
        emit_prefix(grammar, values, n).0.len() == width_prefix(grammar, n),
    decreases n,
{
    if n > 0 {
        lemma_emit_width(grammar, values, (n - 1) as nat);
        match grammar[n - 1] {
            Token::Field(field) => {
                let used = emit_prefix(grammar, values, (n - 1) as nat).1;
                lemma_text_width(field, values[used as int]);
            },
            Token::Literal(_) => {},
        }
    }
}

/// No backtracking: once a token has failed, its error is the outcome,
/// whatever tokens follow.
pub proof fn lemma_scan_stays_failed(grammar: Seq<Token>, input: Seq<u8>, m: nat, n: nat)
    requires
        m <= n,
        scan_prefix(grammar, input, m) is Err,
    ensures
        scan_prefix(grammar, input, n) == scan_prefix(grammar, input, m),
    decreases n,
{
    if m < n {
        lemma_scan_stays_failed(grammar, input, m, (n - 1) as nat);
    }
}

/// Reading looks at no byte behind the tokens it reads: two inputs that
/// agree up to where reading has come give the same values.
pub proof fn lemma_scan_local(grammar: Seq<Token>, input: Seq<u8>, other: Seq<u8>, n: nat)
    requires
        scan_prefix(grammar, input, n) is Ok,
        width_prefix(grammar, n) <= other.len(),
        other.take(width_prefix(grammar, n) as int) == input.take(
            width_prefix(grammar, n) as int,
        ),
    ensures
        scan_prefix(grammar, other, n) == scan_prefix(grammar, input, n),
    decreases n,
{
    if n > 0 {
        let m = (n - 1) as nat;
        let end = width_prefix(grammar, n) as int;
        let at = width_prefix(grammar, m);
        lemma_scan_consumes(grammar, input, m);
        lemma_scan_consumes(grammar, input, n);
        assert(other.take(at as int) =~= other.take(end).take(at as int));
        assert(input.take(at as int) =~= input.take(end).take(at as int));
        lemma_scan_local(grammar, input, other, m);
        match grammar[n - 1] {
            Token::Field(field) => {
                assert(other.subrange(at as int, end) =~= other.take(end).subrange(
                    at as int,
                    end,
                ));
                assert(input.subrange(at as int, end) =~= input.take(end).subrange(
                    at as int,
                    end,
                ));
            },
            Token::Literal(_) => {
                assert(input[at as int] == input.take(end)[at as int]);
            },
        }
    }
}

/// A wrong separator: where the tokens before a literal are read well and
/// the byte that follows them is not that literal, reading fails with a
/// `Format` error that names the byte expected and the byte found, and has
/// looked at nothing behind the byte found.
pub proof fn lemma_wrong_literal(grammar: Seq<Token>, input: Seq<u8>, k: nat)
    requires
        k < grammar.len(),
        grammar[k as int] is Literal,
        scan_prefix(grammar, input, k) is Ok,
        width_prefix(grammar, k) < input.len(),
        input[width_prefix(grammar, k) as int] != grammar[k as int]->Literal_0,
    ensures
        scan(grammar, input) == Err::<Seq<int>, Error>(
            Error::Format {
                cause: Malformed::Literal {
                    expected: grammar[k as int]->Literal_0,
                    found: input[width_prefix(grammar, k) as int],
                },
                inspected: (width_prefix(grammar, k) + 1) as usize,
            },
        ),
{
    lemma_scan_consumes(grammar, input, k);
    lemma_scan_stays_failed(grammar, input, k + 1, grammar.len());
}

/// The error of a wrong separator rests on the bytes up to the mismatch
/// alone: every input that agrees with this one up to and including the byte
/// found fails in the same way.
pub proof fn lemma_wrong_literal_local(
    grammar: Seq<Token>,
    input: Seq<u8>,
    other: Seq<u8>,
    k: nat,
)
    requires
        k < grammar.len(),
        grammar[k as int] is Literal,
        scan_prefix(grammar, input, k) is Ok,
        width_prefix(grammar, k) < input.len(),
        input[width_prefix(grammar, k) as int] != grammar[k as int]->Literal_0,
        width_prefix(grammar, k) < other.len(),
        other.take((width_prefix(grammar, k) + 1) as int) == input.take(
            (width_prefix(grammar, k) + 1) as int,
        ),
    ensures
        scan(grammar, other) == scan(grammar, input),
{
    let at = width_prefix(grammar, k) as int;
    assert(other.take(at) =~= other.take(at + 1).take(at));
    assert(input.take(at) =~= input.take(at + 1).take(at));
    assert(input[at] == input.take(at + 1)[at]);
    lemma_scan_local(grammar, input, other, k);
    lemma_wrong_literal(grammar, input, k);
    lemma_wrong_literal(grammar, other, k);
}

/// Reading what the first `n` tokens have written gives back the values
/// written, whatever follows in the input.
pub proof fn lemma_scan_prefix_emitted(
    grammar: Seq<Token>,
    values: Seq<int>,
    input: Seq<u8>,
    n: nat,
)
    requires
        fill_prefix(grammar, values, n) is Some,
        width_prefix(grammar, n) <= input.len(),
        input.take(width_prefix(grammar, n) as int) == emit_prefix(grammar, values, n).0,
    ensures
        emit_prefix(grammar, values, n).1 == fill_prefix(grammar, values, n)->Some_0,
        scan_prefix(grammar, input, n) == Ok::<(Seq<int>, nat), Error>(
            (
                values.take(fill_prefix(grammar, values, n)->Some_0 as int),
                width_prefix(grammar, n),
            ),
        ),
    decreases n,
{
    if n == 0 {
        assert(values.take(0) =~= Seq::<int>::empty());
    } else {
        let m = (n - 1) as nat;
        let at = width_prefix(grammar, m);
        let end = width_prefix(grammar, n);
        let (bytes, used) = emit_prefix(grammar, values, m);
        lemma_emit_width(grammar, values, m);
        lemma_emit_width(grammar, values, n);
        assert(input.take(at as int) =~= input.take(end as int).take(at as int));
        assert(emit_prefix(grammar, values, n).0.take(at as int) =~= bytes);
        lemma_scan_prefix_emitted(grammar, values, input, m);
        match grammar[n - 1] {
            Token::Field(field) => {
                let value = values[used as int];
                lemma_admitted_fits(field, value);
                lemma_text_width(field, value);
                assert(input.subrange(at as int, end as int) =~= input.take(
                    end as int,
                ).subrange(at as int, end as int));
                assert(emit_prefix(grammar, values, n).0.subrange(at as int, end as int)
                    =~= field.text_of(value));
                lemma_read_text(field, value, input, at);
                assert(values.take(used as int).push(value) =~= values.take((used + 1) as int));
            },
            Token::Literal(byte) => {
                assert(input[at as int] == input.take(end as int)[at as int]);
            },
        }
    }
}

/// Round trip: reading a frame that `grammar` has written for `values` gives
/// `values` back, whatever follows the frame.
pub proof fn lemma_scan_emitted(grammar: Seq<Token>, values: Seq<int>, after: Seq<u8>)
    requires
        fills(grammar, values),
    ensures
        scan(grammar, emit(grammar, values) + after) == Ok::<Seq<int>, Error>(values),
{
    let input = emit(grammar, values) + after;
    lemma_emit_width(grammar, values, grammar.len());
    assert(input.take(frame_width(grammar) as int) =~= emit(grammar, values));
    lemma_scan_prefix_emitted(grammar, values, input, grammar.len());
    assert(values.take(values.len() as int) =~= values);
}

/// Round trip of a whole frame: reading the frame that `grammar` has written
/// for `values` gives `values` back.
pub proof fn lemma_scan_frame(grammar: Seq<Token>, values: Seq<int>)
    requires
        fills(grammar, values),
    ensures
        scan(grammar, emit(grammar, values)) == Ok::<Seq<int>, Error>(values),
{
    lemma_scan_emitted(grammar, values, Seq::empty());
}

} // verus!
