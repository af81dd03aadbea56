use vstd::prelude::*;

verus! {

/// The family of fighters a battle is populated with.
#[derive(Clone, Copy, Debug, PartialEq, Eq, Structural)]
pub enum FighterType {
    Pokemon,
    RockPaperScissors,
    StreetFighter,
}

/// Settings of a battle simulation.
#[derive(Clone, Copy, Debug, PartialEq, Eq, Structural)]
pub struct Args {
    /// The fighter family.
    pub fighter_type: FighterType,
    /// Image width, one fighter per pixel.
    pub width: usize,
    /// Image height, one fighter per pixel.
    pub height: usize,
    /// Fight a random neighbour instead of the weakest one.
    pub random: bool,
    /// Measure the frame rate and print it.
    pub framerate: bool,
    /// Let fighters fight their own kind.
    pub fightown: bool,
}

/// Smallest image side accepted.
pub const MIN_SIZE: usize = 32;

/// Largest image side accepted (what the renderer allows).
pub const MAX_SIZE: usize = 8192;

pub fn default_fighter_type() -> (r: FighterType)
    ensures
        r == FighterType::StreetFighter,
{
    FighterType::StreetFighter
}

pub fn default_size() -> (r: usize)
    ensures
        r == 512,
{
    512
}

/// The value of a string of decimal digits.
pub open spec fn decimal_value(digits: Seq<char>) -> nat
    decreases digits.len(),
{
    if digits.len() == 0 {
        0
    } else {
        decimal_value(digits.drop_last()) * 10 + ((digits.last() as u32) - ('0' as u32)) as nat
    }
}

/// A non-empty string of the digits `0` to `9`.
pub open spec fn is_decimal(digits: Seq<char>) -> bool {
    digits.len() > 0 && forall|i: int| 0 <= i < digits.len() ==> '0' <= #[trigger] digits[i] <= '9'
}

/// What `usize::from_str` reads from `s`: decimal digits after an
/// optional `+`, of a value that fits in a `usize`.
pub open spec fn parsed_usize(s: Seq<char>) -> Option<usize> {
    let digits = if s.len() > 0 && s[0] == '+' {
        s.skip(1)
    } else {
        s
    };
    if is_decimal(digits) && decimal_value(digits) <= usize::MAX {
        Some(decimal_value(digits) as usize)
    } else {
        None
    }
}

/// Relies on std's `usize::from_str`, documented to accept exactly an
/// optional `+` followed by decimal digits whose value fits.
#[verifier::external_body]
fn parse_usize(s: &str) -> (r: Option<usize>)
    ensures
        r == parsed_usize(s@),
{
    s.parse::<usize>().ok()
}

/// Reads an image side: a number from `MIN_SIZE` to `MAX_SIZE`.
pub fn validate_size(arg: &str) -> (r: Result<usize, String>)
    ensures
        parsed_usize(arg@) is None ==> (r matches Err(e) && e@ == "Size is not a number"@),
        parsed_usize(arg@) matches Some(v) ==> if MIN_SIZE <= v <= MAX_SIZE {
            r == Ok::<usize, String>(v)
        } else {
            (r matches Err(e) && e@ == "image size should be between 32 and 8192"@)
        },
{
    match parse_usize(arg) {
        Some(size) => {
            if size < MIN_SIZE || size > MAX_SIZE {
                Err("image size should be between 32 and 8192".to_owned())
            } else {
                Ok(size)
            }
        },
        None => Err("Size is not a number".to_owned()),
    }
}

} // verus!
