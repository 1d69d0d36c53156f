//! Small word-level helpers shared by the shim and the shim builder.
use vstd::prelude::*;

verus! {

/// The UTF-16 code unit of `"`.
pub const QUOTE: u16 = 0x22;

/// A code unit that ends the scan for the program name: a nul or a quote.
pub open spec fn is_program_stop(u: u16) -> bool {
    u == 0 || u == QUOTE
}

/// Index at which the scan for the end of the program name starts:
/// one past the first unit, or two past it when the command line opens with a quote.
pub open spec fn scan_start(c: Seq<u16>) -> int {
    if c[0] == QUOTE {
        2
    } else {
        1
    }
}

/// The first index at or after `i` that holds a stop unit, or `c.len()` when there is none.
pub open spec fn first_stop(c: Seq<u16>, i: int) -> int
    decreases c.len() - i,
{
    if i >= c.len() || i < 0 {
        c.len() as int
    } else if is_program_stop(c[i]) {
        i
    } else {
        first_stop(c, i + 1)
    }
}

/// Whether the scan for the program name ends inside the command line.
pub open spec fn program_scan_ends(c: Seq<u16>) -> bool {
    c.len() >= 1 && first_stop(c, scan_start(c)) < c.len()
}

/// Length of the program part of a command line: up to the unit before a nul,
/// or past the closing quote and the one unit after it.
pub open spec fn program_length(c: Seq<u16>) -> int {
    let j = first_stop(c, scan_start(c));
    if c[j] == 0 {
        j - 1
    } else {
        j + 1
    }
}

/// `first_stop` lies at or after where it starts, and no stop unit comes before it.
pub proof fn lemma_first_stop(c: Seq<u16>, i: int)
    requires
        0 <= i <= c.len(),
    ensures
        i <= first_stop(c, i) <= c.len(),
        first_stop(c, i) < c.len() ==> is_program_stop(c[first_stop(c, i)]),
        forall|k: int| i <= k < first_stop(c, i) ==> !is_program_stop(#[trigger] c[k]),
    decreases c.len() - i,
{
    if i < c.len() && !is_program_stop(c[i]) {
        lemma_first_stop(c, i + 1);
    }
}

/// The program length lies within the command line.
pub proof fn lemma_program_length_bounds(c: Seq<u16>)
    requires
        program_scan_ends(c),
    ensures
        0 <= program_length(c) <= c.len(),
{
    lemma_first_stop(c, scan_start(c));
}

/// What the program length means. The scan starts one unit in, or two when the
/// line opens with a quote (`"`, 0x22), and stops at the first nul or quote.
/// Stopped by a nul, the length ends one unit before the nul; stopped by a quote,
/// it ends one unit after the quote (taking the space that follows).
pub proof fn lemma_program_length_meaning(c: Seq<u16>)
    requires
        program_scan_ends(c),
    ensures
        ({
            let start: int = if c[0] == 0x22 {
                2
            } else {
                1
            };
            let r = program_length(c);
            ||| {
                &&& start <= r + 1 < c.len()
                &&& c[r + 1] == 0
                &&& forall|k: int| start <= k < r + 1 ==> c[k] != 0 && c[k] != 0x22
            }
            ||| {
                &&& start <= r - 1 < c.len()
                &&& c[r - 1] == 0x22
                &&& forall|k: int| start <= k < r - 1 ==> c[k] != 0 && c[k] != 0x22
            }
        }),
{
    lemma_first_stop(c, scan_start(c));
    let j = first_stop(c, scan_start(c));
    assert forall|k: int| scan_start(c) <= k < j implies c[k] != 0 && c[k] != 0x22 by {
        assert(!is_program_stop(c[k]));
    }
}

/// Computes how many UTF-16 units of `commandline` the program name takes.
pub fn compute_program_length(commandline: &[u16]) -> (r: usize)
    requires
        program_scan_ends(commandline@),
    ensures
        r == program_length(commandline@),
        r <= commandline@.len(),
{
    let ghost c = commandline@;
    let ghost fs = first_stop(c, scan_start(c));
    proof {
        lemma_first_stop(c, scan_start(c));
    }
    let mut i: usize = 0;
    if commandline[0] == QUOTE {
        i = 1;
    }
    loop
        invariant_except_break
            i + 1 <= fs,
            first_stop(c, i + 1) == fs,
        invariant
            c == commandline@,
            c.len() == commandline.len(),
            fs == first_stop(c, scan_start(c)),
            fs < c.len(),
        ensures
            i == program_length(c),
            i <= c.len(),
        decreases c.len() - i,
    {
        i = i + 1;
        let unit = commandline[i];
        if unit == 0 {
            i = i - 1;
            break;
        }
        if unit == QUOTE {
            i = i + 1;
            break;
        }
        proof {
            lemma_first_stop(c, i as int + 1);
        }
    }
    i
}

/// The low 16 bits of a machine word (the Windows `LOWORD` macro).
pub fn loword(dword: usize) -> (r: u16)
    ensures
        r == dword % 0x10000,
{
    let r = (dword & 0xFFFF) as u16;
    assert((dword & 0xFFFF) as u16 == dword % 0x10000) by (bit_vector);
    r
}

/// Bits 16 to 31 of a machine word (the Windows `HIWORD` macro).
pub fn hiword(dword: usize) -> (r: u16)
    ensures
        r == (dword / 0x10000) % 0x10000,
{
    let r = ((dword >> 16) & 0xFFFF) as u16;
    assert(((dword >> 16) & 0xFFFF) as u16 == (dword / 0x10000) % 0x10000) by (bit_vector);
    r
}

/// A word's low half and high half give back its low 32 bits.
pub proof fn lemma_words_recompose(dword: usize)
    ensures
        ((dword as int / 0x10000) % 0x10000) * 0x10000 + dword as int % 0x10000 == dword as int
            % 0x1_0000_0000int,
{
    let d = dword as int;
    assert((d / 0x10000 % 0x10000) * 0x10000 + d % 0x10000 == d % 0x1_0000_0000int)
        by (nonlinear_arith)
        requires
            d >= 0,
    {
        vstd::arithmetic::div_mod::lemma_breakdown(d, 0x10000, 0x10000);
    }
}

/// Length of a nul-terminated wide string (the C `wcslen`): the number of units
/// before the first nul; an absent string has length zero.
pub fn wcslen(s: Option<&[u16]>) -> (r: usize)
    requires
        s matches Some(units) ==> units@.contains(0),
    ensures
        s is None ==> r == 0,
        s matches Some(units) ==> {
            &&& r < units@.len()
            &&& units@[r as int] == 0
            &&& forall|k: int| 0 <= k < r ==> units@[k] != 0
        },
{
    match s {
        None => 0,
        Some(units) => {
            let mut len: usize = 0;
            while units[len] != 0
                invariant
                    units@.contains(0),
                    len < units@.len(),
                    forall|k: int| 0 <= k < len ==> units@[k] != 0,
                decreases units@.len() - len,
            {
                len = len + 1;
                if len == units.len() {
                    proof {
                        let z = choose|z: int| 0 <= z < units@.len() && units@[z] == 0;
                        assert(units@[z] != 0);
                    }
                }
            }
            len
        },
    }
}

/// Builds a Windows language identifier (the `MAKELANGID` macro): the
/// sublanguage shifted ten bits up, or-ed with the primary language.
#[allow(non_snake_case)]
pub fn MAKELANGID(primary: u32, sub: u32) -> (r: u16)
    ensures
        r == ((sub as u16) << 10u16) | (primary as u16),
{
    ((sub as u16) << 10u16) | (primary as u16)
}

/// For a primary language below 1024 and a sublanguage below 64, the identifier
/// holds the primary language in its low ten bits and the sublanguage above them.
pub proof fn lemma_langid_fields(primary: u32, sub: u32)
    requires
        primary < 0x400,
        sub < 0x40,
    ensures
        (((sub as u16) << 10u16) | (primary as u16)) % 0x400 == primary,
        (((sub as u16) << 10u16) | (primary as u16)) / 0x400 == sub,
{
    assert(primary < 0x400 && sub < 0x40 ==> (((sub as u16) << 10u16) | (primary as u16)) % 0x400
        == primary) by (bit_vector);
    assert(primary < 0x400 && sub < 0x40 ==> (((sub as u16) << 10u16) | (primary as u16)) / 0x400
        == sub) by (bit_vector);
}

/// Unsigned 64-bit remainder for 32-bit targets; a zero divisor gives zero.
pub fn _aullrem(dividend: u64, divisor: u64) -> (r: u64)
    ensures
        r == if divisor == 0 {
            0
        } else {
            dividend % divisor
        },
{
    if divisor == 0 {
        return 0;
    }
    dividend % divisor
}

/// Unsigned 64-bit division for 32-bit targets.
pub fn _aulldiv(dividend: u64, divisor: u64) -> (r: u64)
    requires
        divisor != 0,
    ensures
        r == dividend / divisor,
{
    dividend / divisor
}

} // verus!
