//! The command-token surface: mapping the recognized tokens `on`, `off`,
//! `power`, `volume-up`, `volume-down`, `volume:<0-255>`, `mute` and
//! `status` to logical commands, and rejecting everything else before any
//! I/O takes place.

use vstd::prelude::*;
use vstd::string::StrSliceExecFns;
use vstd::string::StringSliceAdditionalSpecFns;

use crate::command::LogicalCommand;
use crate::error::InvalidCommand;

verus! {

/// The bytes of the token `on`.
pub open spec fn token_on() -> Seq<u8> {
    seq![0x6f, 0x6e]
}

/// The bytes of the token `off`.
pub open spec fn token_off() -> Seq<u8> {
    seq![0x6f, 0x66, 0x66]
}

/// The bytes of the token `power`.
pub open spec fn token_power() -> Seq<u8> {
    seq![0x70, 0x6f, 0x77, 0x65, 0x72]
}

/// The bytes of the token `volume-up`.
pub open spec fn token_volume_up() -> Seq<u8> {
    seq![0x76, 0x6f, 0x6c, 0x75, 0x6d, 0x65, 0x2d, 0x75, 0x70]
}

/// The bytes of the token `volume-down`.
pub open spec fn token_volume_down() -> Seq<u8> {
    seq![0x76, 0x6f, 0x6c, 0x75, 0x6d, 0x65, 0x2d, 0x64, 0x6f, 0x77, 0x6e]
}

/// The bytes of the token `mute`.
pub open spec fn token_mute() -> Seq<u8> {
    seq![0x6d, 0x75, 0x74, 0x65]
}

/// The bytes of the token `status`.
pub open spec fn token_status() -> Seq<u8> {
    seq![0x73, 0x74, 0x61, 0x74, 0x75, 0x73]
}

/// The bytes of the prefix `volume:` that introduces a specific level.
pub open spec fn volume_prefix() -> Seq<u8> {
    seq![0x76, 0x6f, 0x6c, 0x75, 0x6d, 0x65, 0x3a]
}

/// Whether a token begins with the `volume:` prefix.
pub open spec fn has_volume_prefix(b: Seq<u8>) -> bool {
    b.len() >= 7 && b.take(7) == volume_prefix()
}

/// The bytes after the `volume:` prefix.
pub open spec fn volume_digits(b: Seq<u8>) -> Seq<u8> {
    b.skip(7)
}

/// Whether a byte is an ASCII decimal digit.
pub open spec fn is_digit(c: u8) -> bool {
    0x30 <= c <= 0x39
}

/// The numeric value of an ASCII decimal digit.
pub open spec fn digit_val(c: u8) -> int {
    c - 0x30
}

/// Whether every byte of a sequence is an ASCII decimal digit.
pub open spec fn all_digits(b: Seq<u8>) -> bool {
    forall|i: int| 0 <= i < b.len() ==> is_digit(b[i])
}

/// The number a sequence of ASCII decimal digits denotes.
pub open spec fn digits_value(b: Seq<u8>) -> int
    decreases b.len(),
{
    if b.len() == 0 {
        0
    } else {
        digits_value(b.drop_last()) * 10 + digit_val(b.last())
    }
}

/// Whether a byte sequence is a well-formed volume level: at least one
/// byte, digits only, value at most 255.
pub open spec fn volume_level_ok(b: Seq<u8>) -> bool {
    b.len() > 0 && all_digits(b) && digits_value(b) <= 255
}

/// The logical command a token's bytes denote, or `None` where the token is
/// rejected.
pub open spec fn parse_spec(b: Seq<u8>) -> Option<LogicalCommand> {
    if b == token_on() {
        Some(LogicalCommand::PowerOn)
    } else if b == token_off() {
        Some(LogicalCommand::PowerOff)
    } else if b == token_power() {
        Some(LogicalCommand::PowerToggle)
    } else if b == token_volume_up() {
        Some(LogicalCommand::VolumeUp)
    } else if b == token_volume_down() {
        Some(LogicalCommand::VolumeDown)
    } else if b == token_mute() {
        Some(LogicalCommand::MuteToggle)
    } else if b == token_status() {
        Some(LogicalCommand::QueryPower)
    } else if has_volume_prefix(b) && volume_level_ok(volume_digits(b)) {
        Some(LogicalCommand::VolumeSet(digits_value(volume_digits(b)) as u8))
    } else {
        None
    }
}

proof fn lemma_digits_value_nonneg(b: Seq<u8>)
    requires
        all_digits(b),
    ensures
        digits_value(b) >= 0,
    decreases b.len(),
{
    if b.len() > 0 {
        assert(forall|i: int|
            0 <= i < b.drop_last().len() ==> b.drop_last()[i] == b[i] && is_digit(b[i]));
        lemma_digits_value_nonneg(b.drop_last());
    }
}

proof fn lemma_digits_value_prefix_le(b: Seq<u8>, i: int)
    requires
        all_digits(b),
        0 <= i <= b.len(),
    ensures
        digits_value(b.take(i)) <= digits_value(b),
    decreases b.len() - i,
{
    if i == b.len() {
        assert(b.take(i) =~= b);
    } else {
        let p = b.take(i);
        let q = b.take(i + 1);
        assert(q.drop_last() =~= p);
        assert(q.last() == b[i]);
        assert(forall|j: int| 0 <= j < p.len() ==> p[j] == b[j] && is_digit(b[j]));
        lemma_digits_value_nonneg(p);
        assert(digits_value(q) == digits_value(p) * 10 + digit_val(b[i]));
        lemma_digits_value_prefix_le(b, i + 1);
    }
}

/// Whether two byte vectors hold the same bytes.
fn bytes_eq(a: &Vec<u8>, b: &Vec<u8>) -> (r: bool)
    ensures
        r == (a@ == b@),
{
    if a.len() != b.len() {
        return false;
    }
    let mut i: usize = 0;
    while i < a.len()
        invariant
            a@.len() == b@.len(),
            i <= a@.len(),
            forall|j: int| 0 <= j < i ==> a@[j] == b@[j],
        decreases a@.len() - i,
    {
        if a[i] != b[i] {
            return false;
        }
        i = i + 1;
    }
    proof {
        assert(a@ =~= b@);
    }
    true
}

/// Whether `a` begins with the bytes of `p`.
fn starts_with(a: &Vec<u8>, p: &Vec<u8>) -> (r: bool)
    ensures
        r == (a@.len() >= p@.len() && a@.take(p@.len() as int) == p@),
{
    if a.len() < p.len() {
        return false;
    }
    let mut i: usize = 0;
    while i < p.len()
        invariant
            a@.len() >= p@.len(),
            i <= p@.len(),
            forall|j: int| 0 <= j < i ==> a@[j] == p@[j],
        decreases p@.len() - i,
    {
        if a[i] != p[i] {
            assert(a@.take(p@.len() as int)[i as int] != p@[i as int]);
            return false;
        }
        i = i + 1;
    }
    proof {
        assert(a@.take(p@.len() as int) =~= p@);
    }
    true
}

/// Parses a volume level: `Some` exactly for a nonempty all-digit byte
/// sequence denoting a value at most 255, and then the denoted value.
fn parse_level(digits: &Vec<u8>) -> (r: Option<u8>)
    ensures
        r matches Some(l) ==> volume_level_ok(digits@) && l == digits_value(digits@),
        r is None ==> !volume_level_ok(digits@),
{
    if digits.len() == 0 {
        return None;
    }
    let mut acc: u32 = 0;
    let mut i: usize = 0;
    while i < digits.len()
        invariant
            0 < digits@.len(),
            i <= digits@.len(),
            all_digits(digits@.take(i as int)),
            acc == digits_value(digits@.take(i as int)),
            acc <= 255,
        decreases digits@.len() - i,
    {
        let c = digits[i];
        if c < 0x30 || c > 0x39 {
            assert(!is_digit(digits@[i as int]));
            return None;
        }
        proof {
            let p = digits@.take(i as int);
            let q = digits@.take(i + 1);
            assert(q.drop_last() =~= p);
            assert(q.last() == digits@[i as int]);
            assert(forall|j: int| 0 <= j < q.len() ==> q[j] == digits@[j]);
        }
        acc = acc * 10 + ((c - 0x30) as u32);
        i = i + 1;
        if acc > 255 {
            proof {
                if all_digits(digits@) {
                    lemma_digits_value_prefix_le(digits@, i as int);
                }
            }
            return None;
        }
    }
    proof {
        assert(digits@.take(digits@.len() as int) =~= digits@);
    }
    Some(acc as u8)
}

/// Parses a command token. Each recognized token yields exactly the command
/// `parse_spec` assigns to its bytes; a token with the `volume:` prefix but
/// a malformed level is rejected as `InvalidSpecificVolume`, and every
/// other rejected token as `UnknownCommand`, each carrying the token.
pub fn parse_command(token: &str) -> (r: Result<LogicalCommand, InvalidCommand>)
    ensures
        r matches Ok(cmd) ==> parse_spec(token.spec_bytes()) == Some(cmd),
        r is Ok <==> parse_spec(token.spec_bytes()) is Some,
        parse_spec(token.spec_bytes()) is None && has_volume_prefix(token.spec_bytes()) ==> (
        r matches Err(InvalidCommand::InvalidSpecificVolume(s)) && s@ == token@),
        parse_spec(token.spec_bytes()) is None && !has_volume_prefix(token.spec_bytes()) ==> (
        r matches Err(InvalidCommand::UnknownCommand(s)) && s@ == token@),
{
    let b: Vec<u8> = token.as_bytes_vec();
    let t_on: Vec<u8> = vec![0x6f, 0x6e];
    let t_off: Vec<u8> = vec![0x6f, 0x66, 0x66];
    let t_power: Vec<u8> = vec![0x70, 0x6f, 0x77, 0x65, 0x72];
    let t_volume_up: Vec<u8> = vec![0x76, 0x6f, 0x6c, 0x75, 0x6d, 0x65, 0x2d, 0x75, 0x70];
    let t_volume_down: Vec<u8> = vec![
        0x76,
        0x6f,
        0x6c,
        0x75,
        0x6d,
        0x65,
        0x2d,
        0x64,
        0x6f,
        0x77,
        0x6e,
    ];
    let t_mute: Vec<u8> = vec![0x6d, 0x75, 0x74, 0x65];
    let t_status: Vec<u8> = vec![0x73, 0x74, 0x61, 0x74, 0x75, 0x73];
    let t_volume_prefix: Vec<u8> = vec![0x76, 0x6f, 0x6c, 0x75, 0x6d, 0x65, 0x3a];
    proof {
        assert(t_on@ =~= token_on());
        assert(t_off@ =~= token_off());
        assert(t_power@ =~= token_power());
        assert(t_volume_up@ =~= token_volume_up());
        assert(t_volume_down@ =~= token_volume_down());
        assert(t_mute@ =~= token_mute());
        assert(t_status@ =~= token_status());
        assert(t_volume_prefix@ =~= volume_prefix());
    }
    if bytes_eq(&b, &t_on) {
        Ok(LogicalCommand::PowerOn)
    } else if bytes_eq(&b, &t_off) {
        Ok(LogicalCommand::PowerOff)
    } else if bytes_eq(&b, &t_power) {
        Ok(LogicalCommand::PowerToggle)
    } else if bytes_eq(&b, &t_volume_up) {
        Ok(LogicalCommand::VolumeUp)
    } else if bytes_eq(&b, &t_volume_down) {
        Ok(LogicalCommand::VolumeDown)
    } else if bytes_eq(&b, &t_mute) {
        Ok(LogicalCommand::MuteToggle)
    } else if bytes_eq(&b, &t_status) {
        Ok(LogicalCommand::QueryPower)
    } else if starts_with(&b, &t_volume_prefix) {
        let mut digits: Vec<u8> = Vec::new();
        let mut i: usize = 7;
        while i < b.len()
            invariant
                7 <= i <= b@.len(),
                b@.len() >= 7,
                digits@ == b@.subrange(7, i as int),
            decreases b@.len() - i,
        {
            digits.push(b[i]);
            i = i + 1;
        }
        proof {
            assert(digits@ =~= volume_digits(b@));
        }
        match parse_level(&digits) {
            Some(level) => Ok(LogicalCommand::VolumeSet(level)),
            None => Err(InvalidCommand::InvalidSpecificVolume(token.to_owned())),
        }
    } else {
        Err(InvalidCommand::UnknownCommand(token.to_owned()))
    }
}

} // verus!
