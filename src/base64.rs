//! Base64 encoding over a choice of alphabet.
use vstd::prelude::*;

verus! {

/// The symbol that an alphabet gives to a 6-bit value: `A`-`Z`, `a`-`z`,
/// `0`-`9`, then the alphabet's own two symbols.
pub open spec fn symbol_code(index: u8, sym62: char, sym63: char) -> Option<char> {
    if index < 26 {
        Some(((index + 65) as u8) as char)
    } else if index < 52 {
        Some(((index + 71) as u8) as char)
    } else if index < 62 {
        Some(((index - 4) as u8) as char)
    } else if index == 62 {
        Some(sym62)
    } else if index == 63 {
        Some(sym63)
    } else {
        None
    }
}

/// The 6-bit value that an alphabet gives to a symbol, if any.
pub open spec fn index_code(c: char, sym62: char, sym63: char) -> Option<u8> {
    if 'A' <= c <= 'Z' {
        Some(((c as u32) - 65) as u8)
    } else if 'a' <= c <= 'z' {
        Some(((c as u32) - 71) as u8)
    } else if '0' <= c <= '9' {
        Some(((c as u32) + 4) as u8)
    } else if c == sym62 {
        Some(62)
    } else if c == sym63 {
        Some(63)
    } else {
        None
    }
}

/// The two symbols that tell base64 alphabets apart.
pub trait Alphabet {
    spec fn spec_sixty_second_symbol() -> char;

    spec fn spec_sixty_third_symbol() -> char;

    fn sixty_second_symbol() -> (c: char)
        ensures
            c == Self::spec_sixty_second_symbol(),
    ;

    fn sixty_third_symbol() -> (c: char)
        ensures
            c == Self::spec_sixty_third_symbol(),
    ;

    fn get_char_for_index(index: u8) -> (r: Option<char>)
        ensures
            r == symbol_code(index, Self::spec_sixty_second_symbol(), Self::spec_sixty_third_symbol()),
    {
        if index < 26 {
            Some((index + 65) as char)
        } else if index < 52 {
            Some((index + 71) as char)
        } else if index < 62 {
            Some((index - 4) as char)
        } else if index == 62 {
            Some(Self::sixty_second_symbol())
        } else if index == 63 {
            Some(Self::sixty_third_symbol())
        } else {
            None
        }
    }

    fn get_index_for_char(character: char) -> (r: Option<u8>)
        ensures
            r == index_code(character, Self::spec_sixty_second_symbol(), Self::spec_sixty_third_symbol()),
    {
        if 'A' <= character && character <= 'Z' {
            Some(((character as u32) - 65) as u8)
        } else if 'a' <= character && character <= 'z' {
            Some(((character as u32) - 71) as u8)
        } else if '0' <= character && character <= '9' {
            Some(((character as u32) + 4) as u8)
        } else if character == Self::sixty_second_symbol() {
            Some(62)
        } else if character == Self::sixty_third_symbol() {
            Some(63)
        } else {
            None
        }
    }

    fn get_padding_char() -> (c: char)
        ensures
            c == '=',
    {
        '='
    }
}


/// The standard alphabet: `+` and `/`.
pub struct Std;

/// The URL- and filename-safe alphabet: `-` and `_`.
pub struct Url;

impl Alphabet for Std {
    open spec fn spec_sixty_second_symbol() -> char {
        '+'
    }

    open spec fn spec_sixty_third_symbol() -> char {
        '/'
    }

    fn sixty_second_symbol() -> (c: char) {
        '+'
    }

    fn sixty_third_symbol() -> (c: char) {
        '/'
    }
}

impl Alphabet for Url {
    open spec fn spec_sixty_second_symbol() -> char {
        '-'
    }

    open spec fn spec_sixty_third_symbol() -> char {
        '_'
    }

    fn sixty_second_symbol() -> (c: char) {
        '-'
    }

    fn sixty_third_symbol() -> (c: char) {
        '_'
    }
}

/// The 6-bit groups of a chunk of one to three bytes: two, three or four of them.
pub open spec fn sextets(chunk: Seq<u8>) -> Seq<u8> {
    if chunk.len() == 1 {
        seq![chunk[0] >> 2u8, (chunk[0] & 3u8) << 4u8]
    } else if chunk.len() == 2 {
        seq![chunk[0] >> 2u8, (chunk[0] & 3u8) << 4u8 | chunk[1] >> 4u8, (chunk[1] & 15u8) << 2u8]
    } else {
        seq![
            chunk[0] >> 2u8,
            (chunk[0] & 3u8) << 4u8 | chunk[1] >> 4u8,
            (chunk[1] & 15u8) << 2u8 | chunk[2] >> 6u8,
            chunk[2] & 63u8,
        ]
    }
}

/// The symbol of one 6-bit group in alphabet `A`.
pub open spec fn symbol<A: Alphabet>(v: u8) -> char {
    symbol_code(v, A::spec_sixty_second_symbol(), A::spec_sixty_third_symbol()).unwrap()
}

/// Four symbols for a group list, padded with `=`.
pub open spec fn chunk_symbols<A: Alphabet>(groups: Seq<u8>) -> Seq<char> {
    Seq::new(4, |j: int| if j < groups.len() { symbol::<A>(groups[j]) } else { '=' })
}

/// The base64 text of `data` in alphabet `A`, three bytes to four symbols.
pub open spec fn encoded<A: Alphabet>(data: Seq<u8>) -> Seq<char>
    decreases data.len(),
{
    if data.len() == 0 {
        Seq::empty()
    } else if data.len() <= 3 {
        chunk_symbols::<A>(sextets(data))
    } else {
        chunk_symbols::<A>(sextets(data.take(3))) + encoded::<A>(data.skip(3))
    }
}

/// Every started group of three bytes becomes four symbols.
pub proof fn lemma_encoded_len<A: Alphabet>(data: Seq<u8>)
    ensures
        encoded::<A>(data).len() == 4 * ((data.len() + 2) / 3),
    decreases data.len(),
{
    if data.len() > 3 {
        lemma_encoded_len::<A>(data.skip(3));
    }
}

impl Std {
    pub fn encode(data: &[u8]) -> (r: String)
        ensures
            r@ == encoded::<Std>(data@),
    {
        encode::<Std>(data)
    }
}

impl Url {
    pub fn encode(data: &[u8]) -> (r: String)
        ensures
            r@ == encoded::<Url>(data@),
    {
        encode::<Url>(data)
    }
}

/// Relies on String::push: the character is added at the end.
#[verifier::external_body]
fn push_char(s: &mut String, c: char)
    ensures
        final(s)@ == old(s)@.push(c),
{
    s.push(c)
}

pub fn encode<A: Alphabet>(data: &[u8]) -> (r: String)
    ensures
        r@ == encoded::<A>(data@),
{
    let mut out = String::new();
    let mut i: usize = 0;
    assert(data@.skip(0) == data@);
    assert(out@ + encoded::<A>(data@) == encoded::<A>(data@));
    while i < data.len()
        invariant
            i <= data@.len(),
            out@ + encoded::<A>(data@.skip(i as int)) == encoded::<A>(data@),
        decreases data@.len() - i,
    {
        let end: usize = if data.len() - i < 3 { data.len() } else { i + 3 };
        let mut chunk: Vec<u8> = Vec::new();
        let mut k: usize = i;
        while k < end
            invariant
                i <= k <= end <= data@.len(),
                chunk@ == data@.subrange(i as int, k as int),
            decreases end - k,
        {
            chunk.push(data[k]);
            k = k + 1;
        }
        let symbols = encode_chunk::<A>(split(&chunk));
        let ghost before = out@;
        let mut j: usize = 0;
        while j < 4
            invariant
                j <= 4,
                symbols@.len() == 4,
                out@ == before + symbols@.take(j as int),
            decreases 4 - j,
        {
            push_char(&mut out, symbols[j]);
            assert(symbols@.take(j as int + 1) == symbols@.take(j as int).push(symbols@[j as int]));
            j = j + 1;
        }
        proof {
            let rest = data@.skip(i as int);
            assert(symbols@.take(4) == symbols@);
            if rest.len() > 3 {
                assert(rest.take(3) == chunk@);
                assert(rest.skip(3) == data@.skip(end as int));
            } else {
                assert(rest == chunk@);
                assert(data@.skip(end as int) == Seq::<u8>::empty());
            }
        }
        i = end;
    }
    assert(data@.skip(i as int) == Seq::<u8>::empty());
    assert(out@ + Seq::<char>::empty() == out@);
    out
}

pub(crate) proof fn lemma_groups_fit(x: u8, y: u8)
    ensures
        x >> 2u8 < 64,
        (x & 3u8) << 4u8 < 64,
        (x & 3u8) << 4u8 | y >> 4u8 < 64,
        (x & 15u8) << 2u8 < 64,
        (x & 15u8) << 2u8 | y >> 6u8 < 64,
        x & 63u8 < 64,
{
    assert(x >> 2u8 < 64) by (bit_vector);
    assert((x & 3u8) << 4u8 < 64) by (bit_vector);
    assert((x & 3u8) << 4u8 | y >> 4u8 < 64) by (bit_vector);
    assert((x & 15u8) << 2u8 < 64) by (bit_vector);
    assert((x & 15u8) << 2u8 | y >> 6u8 < 64) by (bit_vector);
    assert(x & 63u8 < 64) by (bit_vector);
}

/// Splits a chunk of one to three bytes into its 6-bit groups.
fn split(chunk: &Vec<u8>) -> (r: Vec<u8>)
    requires
        1 <= chunk@.len() <= 3,
    ensures
        r@ == sextets(chunk@),
        forall|j: int| 0 <= j < r@.len() ==> r@[j] < 64,
{
    proof {
        lemma_groups_fit(chunk@[0], if chunk@.len() > 1 { chunk@[1] } else { 0 });
        if chunk@.len() > 1 {
            lemma_groups_fit(chunk@[1], if chunk@.len() > 2 { chunk@[2] } else { 0 });
        }
        if chunk@.len() > 2 {
            lemma_groups_fit(chunk@[2], 0);
        }
    }
    if chunk.len() == 1 {
        vec![chunk[0] >> 2u8, (chunk[0] & 3u8) << 4u8]
    } else if chunk.len() == 2 {
        vec![chunk[0] >> 2u8, (chunk[0] & 3u8) << 4u8 | chunk[1] >> 4u8, (chunk[1] & 15u8) << 2u8]
    } else {
        vec![
            chunk[0] >> 2u8,
            (chunk[0] & 3u8) << 4u8 | chunk[1] >> 4u8,
            (chunk[1] & 15u8) << 2u8 | chunk[2] >> 6u8,
            chunk[2] & 63u8,
        ]
    }
}

/// Turns up to four 6-bit groups into four symbols, padding with `=`.
fn encode_chunk<A: Alphabet>(chunk: Vec<u8>) -> (r: Vec<char>)
    requires
        chunk@.len() <= 4,
        forall|j: int| 0 <= j < chunk@.len() ==> chunk@[j] < 64,
    ensures
        r@ == chunk_symbols::<A>(chunk@),
{
    let pad = A::get_padding_char();
    let mut out: Vec<char> = vec![pad, pad, pad, pad];
    let mut i: usize = 0;
    while i < chunk.len()
        invariant
            i <= chunk@.len() <= 4,
            forall|j: int| 0 <= j < chunk@.len() ==> chunk@[j] < 64,
            out@.len() == 4,
            forall|j: int| 0 <= j < i ==> out@[j] == symbol::<A>(chunk@[j]),
            forall|j: int| i <= j < 4 ==> out@[j] == '=',
        decreases chunk@.len() - i,
    {
        if let Some(chr) = A::get_char_for_index(chunk[i]) {
            out.set(i, chr);
        }
        i = i + 1;
    }
    assert(out@ == chunk_symbols::<A>(chunk@));
    out
}

} // verus!
