//! The three letters of a VLM type, the numbers made of them, and the
//! address that a server of such a type binds.

use crate::text::char_of;
use crate::text::is_scalar_value;
use crate::text::lossy_text;
use crate::text::utf8_lossy;
use crate::web::VlmHost;
use crate::web::VlmPort;
use std::marker::PhantomData;
use std::path::PathBuf;
use std::sync::Arc;
use vstd::prelude::*;

verus! {

/// A path in the file system. Nothing in this library looks inside one.
#[verifier::external_type_specification]
#[verifier::external_body]
pub struct ExPathBuf(PathBuf);

/// How a server is to run.
#[derive(Debug)]
pub enum V {
    /// Serve from the given place, on the fixed port.
    Go(PathBuf),
}

/// The port that a server binds when it is given a mode.
pub const MODE_PORT: VlmPort = 9090;

/// The character that stands for a code that is no character.
pub const UNKNOWN: char = '?';

/// The character of a letter code, or `?` where the code is none.
pub open spec fn letter(code: i32) -> char {
    if is_scalar_value(code as u32) {
        (code as u32) as char
    } else {
        UNKNOWN
    }
}

/// A type that is named by three letter codes.
pub trait VLMDefined {
    const V: i32;
    const L: i32;
    const M: i32;
    const VLM: i64;

    /// The three letters as text, `?` for a code that is no character.
    fn vlm_ascii() -> (text: String)
        ensures
            text@ == seq![letter(Self::V), letter(Self::L), letter(Self::M)],
    {
        let mut text = String::new();
        text.push(letter_of(Self::V));
        text.push(letter_of(Self::L));
        text.push(letter_of(Self::M));
        text
    }

    /// Three letter codes as unsigned numbers, each cut to 32 bits.
    fn return_ascii(v: i32, l: i32, m: i32) -> (codes: [u32; 3])
        ensures
            codes@ == seq![v as u32, l as u32, m as u32],
    ;

    /// Three letter codes as three texts of one letter each, `?` for a code
    /// that is no character.
    fn ascii_to_string(v: i32, l: i32, m: i32) -> (letters: Vec<String>)
        ensures
            letters.len() == 3,
            letters[0]@ == seq![letter(v)],
            letters[1]@ == seq![letter(l)],
            letters[2]@ == seq![letter(m)],
    ;

    /// The packed number in the machine's word size.
    fn ascii_to_hex(vlm: i64) -> (word: isize)
        ensures
            word == vlm as isize,
    ;

    /// The packed number in the machine's word size.
    fn hex_to_ascii(vlm: i64) -> (word: isize)
        ensures
            word == vlm as isize,
    ;

    /// The three letters, read as bytes, and `m` cut to 32 bits and mixed
    /// with each letter code: added to `V`, less `L`, times `M`, each
    /// wrapping around, and exclusive-or'd with `V`.
    fn hybrid_ascii_hex(m: i64) -> (mixed: (String, [i32; 4]))
        ensures
            mixed.0@ == utf8_lossy(seq![Self::V as u8, Self::L as u8, Self::M as u8]),
            mixed.1@ == seq![
                (m as i32).wrapping_add(Self::V),
                (m as i32).wrapping_sub(Self::L),
                (m as i32).wrapping_mul(Self::M),
                (m as i32) ^ Self::V,
            ],
    ;

    /// The name that the type goes by.
    fn get_alias() -> String;

    /// Each of four numbers put through [`transformed`].
    fn vlm_h_hex_asccii_simd(vlm: [i32; 4]) -> (out: Option<[i32; 4]>)
        requires
            forall|i: int| 0 <= i < 4 ==> TRANSFORM_MIN <= #[trigger] vlm[i] <= TRANSFORM_MAX,
        ensures
            out.is_some(),
            forall|i: int| 0 <= i < 4 ==> #[trigger] out.unwrap()[i] == transformed(vlm[i] as int),
    ;
}

/// The least number that [`transform_value`] takes: below it a step of the
/// computation leaves the range of `i32`.
pub const TRANSFORM_MIN: i32 = -1289;

/// The largest number that [`transform_value`] takes.
pub const TRANSFORM_MAX: i32 = 1290;

/// `x^3 - 2x^2 + x + 13`.
pub open spec fn transformed(x: int) -> int {
    x * x * x - 2 * (x * x) + x + 13
}

/// Computes `x^3 - 2x^2 + x + 13`.
pub fn transform_value(x: i32) -> (y: i32)
    requires
        TRANSFORM_MIN <= x <= TRANSFORM_MAX,
    ensures
        y == transformed(x as int),
{
    assert(0 <= x * x <= 1664100 && -2141700569 <= x * x * x <= 2146689000 && x * x * x - 2 * (x
        * x) + x >= -2145024900) by (nonlinear_arith)
        requires
            -1289 <= x <= 1290,
    ;
    let square = x * x;
    let cube = square * x;
    cube - 2 * square + x + 13
}

/// `x^3 - 2x^2 + x + 13` where every step wraps around at the ends of
/// `i32`.
pub open spec fn transformed_wrapping(x: i32) -> i32 {
    x.wrapping_mul(x).wrapping_mul(x).wrapping_sub(2i32.wrapping_mul(x.wrapping_mul(x))).wrapping_add(
        x,
    ).wrapping_add(13)
}

/// Computes `x^3 - 2x^2 + x + 13` with steps that wrap around. From
/// [`TRANSFORM_MIN`] to [`TRANSFORM_MAX`] no step does, and the result is
/// that of [`transform_value`].
pub fn transform_value_wrapping(x: i32) -> (y: i32)
    ensures
        y == transformed_wrapping(x),
        TRANSFORM_MIN <= x <= TRANSFORM_MAX ==> y == transformed(x as int),
{
    proof {
        if TRANSFORM_MIN <= x <= TRANSFORM_MAX {
            assert(0 <= x * x <= 1664100 && -2141700569 <= x * x * x <= 2146689000 && x * x * x
                - 2 * (x * x) + x >= -2145024900 && 2 * (x * x) <= 3328200) by (nonlinear_arith)
                requires
                    -1289 <= x <= 1290,
            ;
        }
    }
    let square = x.wrapping_mul(x);
    let cube = square.wrapping_mul(x);
    cube.wrapping_sub(2i32.wrapping_mul(square)).wrapping_add(x).wrapping_add(13)
}

/// The number that three letter codes make when `v` is put sixteen bits
/// up, `l` eight bits up, and `m` below them.
pub open spec fn packed(v: i32, l: i32, m: i32) -> i64 {
    ((v as i64) << 16) | ((l as i64) << 8) | (m as i64)
}

/// Packs three letter codes into one number.
pub fn pack_letters(v: i32, l: i32, m: i32) -> (vlm: i64)
    ensures
        vlm == packed(v, l, m),
{
    ((v as i64) << 16) | ((l as i64) << 8) | (m as i64)
}

/// The letter code of `V`, which a type has unless it names another.
pub const DEFAULT_V: i32 = 86;

/// The letter code of `L`, which a type has unless it names another.
pub const DEFAULT_L: i32 = 76;

/// The letter code of `M`, which a type has unless it names another.
pub const DEFAULT_M: i32 = 77;

/// What the declaration of a VLM type may say of its constants. What it
/// leaves out is filled in by [`VlmOptions::resolve`].
pub struct VlmOptions {
    pub v: Option<i32>,
    pub l: Option<i32>,
    pub m: Option<i32>,
    pub vlm: Option<i64>,
    pub alias: Option<String>,
}

/// The constants of a VLM type.
pub struct VlmConstants {
    pub v: i32,
    pub l: i32,
    pub m: i32,
    pub vlm: i64,
    pub alias: String,
}

impl VlmOptions {
    /// The constants of the type called `name`: each letter code as it was
    /// given, or that of its own letter; the packed number as it was given,
    /// or the three codes packed; the alias as it was given, or the name.
    pub fn resolve(self, name: &str) -> (constants: VlmConstants)
        ensures
            constants.v == self.v.unwrap_or(DEFAULT_V),
            constants.l == self.l.unwrap_or(DEFAULT_L),
            constants.m == self.m.unwrap_or(DEFAULT_M),
            constants.vlm == self.vlm.unwrap_or(packed(constants.v, constants.l, constants.m)),
            constants.alias@ == match self.alias {
                Some(alias) => alias@,
                None => name@,
            },
    {
        let v = match self.v {
            Some(code) => code,
            None => DEFAULT_V,
        };
        let l = match self.l {
            Some(code) => code,
            None => DEFAULT_L,
        };
        let m = match self.m {
            Some(code) => code,
            None => DEFAULT_M,
        };
        let vlm = match self.vlm {
            Some(number) => number,
            None => pack_letters(v, l, m),
        };
        let alias = match self.alias {
            Some(alias) => alias,
            None => String::from_str(name),
        };
        VlmConstants { v, l, m, vlm, alias }
    }
}

/// The three default letter codes pack to the number of `VLM`.
pub proof fn lemma_default_letters_packed()
    ensures
        packed(DEFAULT_V, DEFAULT_L, DEFAULT_M) == 5655629,
{
    assert(((86i64 << 16) | (76i64 << 8) | 77i64) == 5655629i64) by (bit_vector);
}

/// The address that a server binds: the one given, on the fixed port
/// where a mode is given.
pub fn transform_address(addr: (VlmHost, VlmPort), mode: &Arc<Option<V>>) -> (bound: (
    VlmHost,
    VlmPort,
))
    ensures
        bound == if (**mode).is_some() {
            (addr.0, MODE_PORT)
        } else {
            addr
        },
{
    if let Some(_) = &**mode {
        (addr.0, MODE_PORT)
    } else {
        addr
    }
}

/// The character of a letter code, or `?` where the code is none.
pub fn letter_of(code: i32) -> (c: char)
    ensures
        c == letter(code),
{
    match char_of(#[verifier::truncate] (code as u32)) {
        Some(c) => c,
        None => '?',
    }
}

/// A VLM type over a value type `V` and a result type `U`.
pub struct Vlm<V, U> {
    _phantom: PhantomData<(U, V)>,
}

impl<V, U> Vlm<V, U> {
    /// The value that `new` makes: it holds nothing but the mark of its
    /// two types.
    pub closed spec fn made() -> Self {
        Vlm { _phantom: PhantomData }
    }

    /// A value of the type. It holds nothing.
    pub fn new() -> (vlm: Self)
        ensures
            vlm == Self::made(),
    {
        Self { _phantom: PhantomData }
    }
}

impl<V, U> VLMDefined for Vlm<V, U> {
    const V: i32 = DEFAULT_V;
    const L: i32 = DEFAULT_L;
    const M: i32 = DEFAULT_M;
    const VLM: i64 = 5655629;

    fn return_ascii(v: i32, l: i32, m: i32) -> (codes: [u32; 3]) {
        [
            #[verifier::truncate] (v as u32),
            #[verifier::truncate] (l as u32),
            #[verifier::truncate] (m as u32),
        ]
    }

    fn ascii_to_string(v: i32, l: i32, m: i32) -> (letters: Vec<String>) {
        let mut letters: Vec<String> = Vec::new();
        letters.push(one_letter(v));
        letters.push(one_letter(l));
        letters.push(one_letter(m));
        letters
    }

    fn ascii_to_hex(vlm: i64) -> (word: isize) {
        #[verifier::truncate] (vlm as isize)
    }

    fn hex_to_ascii(vlm: i64) -> (word: isize) {
        #[verifier::truncate] (vlm as isize)
    }

    fn hybrid_ascii_hex(m: i64) -> (mixed: (String, [i32; 4])) {
        let bytes: [u8; 3] = [
            #[verifier::truncate] (Self::V as u8),
            #[verifier::truncate] (Self::L as u8),
            #[verifier::truncate] (Self::M as u8),
        ];
        let ascii = lossy_text(bytes.as_slice());
        let low: i32 = #[verifier::truncate] (m as i32);
        let result: [i32; 4] = [
            low.wrapping_add(Self::V),
            low.wrapping_sub(Self::L),
            low.wrapping_mul(Self::M),
            low ^ Self::V,
        ];
        (ascii, result)
    }

    fn get_alias() -> (alias: String)
        ensures
            alias@ == "Vlm"@,
    {
        String::from_str("Vlm")
    }

    fn vlm_h_hex_asccii_simd(vlm: [i32; 4]) -> (out: Option<[i32; 4]>) {
        let result_array: [i32; 4] = [
            transform_value(vlm[0]),
            transform_value(vlm[1]),
            transform_value(vlm[2]),
            transform_value(vlm[3]),
        ];
        Some(result_array)
    }
}

/// The constants of `Vlm` are the codes of `V`, `L` and `M`, and the three
/// codes packed.
pub proof fn lemma_vlm_constants<V, U>()
    ensures
        <Vlm<V, U> as VLMDefined>::V == 86,
        <Vlm<V, U> as VLMDefined>::L == 76,
        <Vlm<V, U> as VLMDefined>::M == 77,
        <Vlm<V, U> as VLMDefined>::VLM == 5655629,
        <Vlm<V, U> as VLMDefined>::VLM == packed(
            <Vlm<V, U> as VLMDefined>::V,
            <Vlm<V, U> as VLMDefined>::L,
            <Vlm<V, U> as VLMDefined>::M,
        ),
{
    lemma_default_letters_packed();
}

/// A text of one letter: that of the code, or `?` where the code is none.
fn one_letter(code: i32) -> (text: String)
    ensures
        text@ == seq![letter(code)],
{
    let mut text = String::new();
    text.push(letter_of(code));
    text
}

} // verus!
