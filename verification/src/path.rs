//! The derivation-path grammar.
//!
//! A path is the letter `m` followed by zero or more segments, each
//! introduced by `/`. A segment is one or more decimal digits whose value is
//! below `2^31`, with an optional trailing apostrophe marking the step as
//! hardened. Examples: `m`, `m/0`, `m/44'/0'/0'/0/0`.

use vstd::prelude::*;

use crate::errors::VkpError;

verus! {

/// Raw child numbers at or above this bound denote hardened steps.
pub const HARDENED_BASE: u32 = 0x8000_0000;

/// One step of a derivation path: a child index below `2^31` and a flag for
/// hardened derivation.
#[derive(Clone, Copy, Debug, PartialEq, Eq, Structural)]
pub struct PathStep {
    pub index: u32,
    pub hardened: bool,
}

impl PathStep {
    /// The index leaves room for the hardened bit.
    pub open spec fn wf(self) -> bool {
        self.index < HARDENED_BASE
    }

    /// The raw BIP32 child number: the index, with the top bit set on
    /// hardened steps.
    pub open spec fn spec_raw(self) -> u32
        recommends
            self.wf(),
    {
        if self.hardened {
            (self.index + HARDENED_BASE) as u32
        } else {
            self.index
        }
    }

}

/// The ten decimal digits.
pub open spec fn spec_is_digit(c: char) -> bool {
    48 <= c as u32 <= 57
}

/// The numeric value of a decimal digit.
pub open spec fn digit_value(c: char) -> int
    recommends
        spec_is_digit(c),
{
    c as u32 - 48
}

/// Parses the rest of one segment. `acc` is the value of the digits read so
/// far and `any` says whether at least one digit was read. The segment ends
/// at a `/`, at an apostrophe, or at the end of the path; its value must
/// stay below the hardened base.
pub open spec fn spec_parse_segment(s: Seq<char>, acc: int, any: bool) -> Option<Seq<PathStep>>
    decreases s.len(), 1int,
{
    if s.len() == 0 {
        if any && acc < HARDENED_BASE {
            Some(seq![PathStep { index: acc as u32, hardened: false }])
        } else {
            None
        }
    } else if spec_is_digit(s[0]) {
        spec_parse_segment(s.drop_first(), acc * 10 + digit_value(s[0]), true)
    } else if s[0] == '\'' {
        if any && acc < HARDENED_BASE {
            match spec_parse_tail(s.drop_first()) {
                Some(rest) => Some(
                    seq![PathStep { index: acc as u32, hardened: true }] + rest,
                ),
                None => None,
            }
        } else {
            None
        }
    } else if s[0] == '/' {
        if any && acc < HARDENED_BASE {
            match spec_parse_segment(s.drop_first(), 0, false) {
                Some(rest) => Some(
                    seq![PathStep { index: acc as u32, hardened: false }] + rest,
                ),
                None => None,
            }
        } else {
            None
        }
    } else {
        None
    }
}

/// Parses what follows the leading `m` or a hardened segment: either nothing
/// is left, or a `/` opens the next segment.
pub open spec fn spec_parse_tail(s: Seq<char>) -> Option<Seq<PathStep>>
    decreases s.len(), 2int,
{
    if s.len() == 0 {
        Some(Seq::empty())
    } else if s[0] == '/' {
        spec_parse_segment(s.drop_first(), 0, false)
    } else {
        None
    }
}

/// Parses a whole derivation path: the letter `m`, then segments. `None`
/// means the path is malformed.
pub open spec fn spec_parse_path(s: Seq<char>) -> Option<Seq<PathStep>> {
    if s.len() > 0 && s[0] == 'm' {
        spec_parse_tail(s.drop_first())
    } else {
        None
    }
}

/// Once the accumulated value of a segment has reached the hardened base,
/// no continuation of the segment parses.
proof fn lemma_segment_overflow(s: Seq<char>, acc: int, any: bool)
    requires
        acc >= HARDENED_BASE,
    ensures
        spec_parse_segment(s, acc, any) is None,
    decreases s.len(),
{
    if s.len() == 0 {
    } else if spec_is_digit(s[0]) {
        assert(acc * 10 >= acc) by (nonlinear_arith)
            requires
                acc >= 0,
        ;
        assert(digit_value(s[0]) >= 0);
        lemma_segment_overflow(s.drop_first(), acc * 10 + digit_value(s[0]), true);
    }
}

/// Every step a segment parse yields is well formed.
proof fn lemma_parse_segment_wf(s: Seq<char>, acc: int, any: bool)
    requires
        acc >= 0,
        spec_parse_segment(s, acc, any) is Some,
    ensures
        forall|i: int|
            0 <= i < spec_parse_segment(s, acc, any).unwrap().len()
                ==> #[trigger] spec_parse_segment(s, acc, any).unwrap()[i].wf(),
    decreases s.len(), 1int,
{
    let result = spec_parse_segment(s, acc, any).unwrap();
    if s.len() == 0 {
    } else if spec_is_digit(s[0]) {
        lemma_parse_segment_wf(s.drop_first(), acc * 10 + digit_value(s[0]), true);
    } else if s[0] == '\'' {
        lemma_parse_tail_wf(s.drop_first());
        let rest = spec_parse_tail(s.drop_first()).unwrap();
        assert forall|i: int| 0 <= i < result.len() implies #[trigger] result[i].wf() by {
            if i > 0 {
                assert(result[i] == rest[i - 1]);
            }
        }
    } else if s[0] == '/' {
        lemma_parse_segment_wf(s.drop_first(), 0, false);
        let rest = spec_parse_segment(s.drop_first(), 0, false).unwrap();
        assert forall|i: int| 0 <= i < result.len() implies #[trigger] result[i].wf() by {
            if i > 0 {
                assert(result[i] == rest[i - 1]);
            }
        }
    }
}

/// Every step a tail parse yields is well formed.
proof fn lemma_parse_tail_wf(s: Seq<char>)
    requires
        spec_parse_tail(s) is Some,
    ensures
        forall|i: int|
            0 <= i < spec_parse_tail(s).unwrap().len()
                ==> #[trigger] spec_parse_tail(s).unwrap()[i].wf(),
    decreases s.len(), 2int,
{
    if s.len() == 0 {
    } else if s[0] == '/' {
        lemma_parse_segment_wf(s.drop_first(), 0, false);
    }
}

/// Every step of a parsed path is well formed.
pub proof fn lemma_parse_path_wf(s: Seq<char>)
    requires
        spec_parse_path(s) is Some,
    ensures
        forall|i: int|
            0 <= i < spec_parse_path(s).unwrap().len()
                ==> #[trigger] spec_parse_path(s).unwrap()[i].wf(),
{
    lemma_parse_tail_wf(s.drop_first());
}

/// Parses the rest of one segment, mirroring `spec_parse_segment`.
fn parse_segment(s: &str, acc: u32, any: bool) -> (r: Result<Vec<PathStep>, VkpError>)
    requires
        acc < HARDENED_BASE,
    ensures
        (r is Ok) == (spec_parse_segment(s@, acc as int, any) is Some),
        r is Ok ==> Some(r.unwrap()@) == spec_parse_segment(s@, acc as int, any),
        r is Err ==> r == Err::<Vec<PathStep>, VkpError>(VkpError::InvalidPath),
    decreases s@.len(), 1int,
{
    let n = s.unicode_len();
    if n == 0 {
        if any {
            let v: Vec<PathStep> = vec![PathStep { index: acc, hardened: false }];
            assert(v@ =~= seq![PathStep { index: acc, hardened: false }]);
            Ok(v)
        } else {
            Err(VkpError::InvalidPath)
        }
    } else {
        let c = s.get_char(0);
        let rest = s.substring_char(1, n);
        proof {
            assert(rest@ =~= s@.drop_first());
        }
        let cu = c as u32;
        if 48 <= cu && cu <= 57 {
            let d = cu - 48;
            let next = acc as u64 * 10 + d as u64;
            if next >= HARDENED_BASE as u64 {
                proof {
                    lemma_segment_overflow(
                        rest@,
                        acc as int * 10 + digit_value(c),
                        true,
                    );
                }
                Err(VkpError::InvalidPath)
            } else {
                parse_segment(rest, next as u32, true)
            }
        } else if c == '\'' {
            if any {
                match parse_tail(rest) {
                    Ok(mut v) => {
                        let step = PathStep { index: acc, hardened: true };
                        v.insert(0, step);
                        assert(v@ =~= seq![step] + spec_parse_tail(rest@).unwrap());
                        Ok(v)
                    },
                    Err(e) => Err(e),
                }
            } else {
                Err(VkpError::InvalidPath)
            }
        } else if c == '/' {
            if any {
                match parse_segment(rest, 0, false) {
                    Ok(mut v) => {
                        let step = PathStep { index: acc, hardened: false };
                        v.insert(0, step);
                        assert(v@ =~= seq![step]
                            + spec_parse_segment(rest@, 0, false).unwrap());
                        Ok(v)
                    },
                    Err(e) => Err(e),
                }
            } else {
                Err(VkpError::InvalidPath)
            }
        } else {
            Err(VkpError::InvalidPath)
        }
    }
}

/// Parses what follows the leading `m`, mirroring `spec_parse_tail`.
fn parse_tail(s: &str) -> (r: Result<Vec<PathStep>, VkpError>)
    ensures
        (r is Ok) == (spec_parse_tail(s@) is Some),
        r is Ok ==> Some(r.unwrap()@) == spec_parse_tail(s@),
        r is Err ==> r == Err::<Vec<PathStep>, VkpError>(VkpError::InvalidPath),
    decreases s@.len(), 2int,
{
    let n = s.unicode_len();
    if n == 0 {
        let v: Vec<PathStep> = Vec::new();
        assert(v@ =~= Seq::<PathStep>::empty());
        Ok(v)
    } else {
        let c = s.get_char(0);
        if c == '/' {
            let rest = s.substring_char(1, n);
            proof {
                assert(rest@ =~= s@.drop_first());
            }
            parse_segment(rest, 0, false)
        } else {
            Err(VkpError::InvalidPath)
        }
    }
}

/// Parses a derivation path into its steps; rejects anything outside the
/// grammar with `InvalidPath`. Every step returned is well formed: its
/// index is below the hardened base.
pub fn parse_path(path: &str) -> (r: Result<Vec<PathStep>, VkpError>)
    ensures
        (r is Ok) == (spec_parse_path(path@) is Some),
        r is Ok ==> Some(r.unwrap()@) == spec_parse_path(path@),
        r is Ok ==> forall|i: int|
            0 <= i < r.unwrap()@.len() ==> #[trigger] r.unwrap()@[i].wf(),
        r is Err ==> r == Err::<Vec<PathStep>, VkpError>(VkpError::InvalidPath),
{
    let n = path.unicode_len();
    if n == 0 {
        return Err(VkpError::InvalidPath);
    }
    let c = path.get_char(0);
    if c != 'm' {
        return Err(VkpError::InvalidPath);
    }
    let rest = path.substring_char(1, n);
    proof {
        assert(rest@ =~= path@.drop_first());
    }
    let r = parse_tail(rest);
    proof {
        if r is Ok {
            lemma_parse_path_wf(path@);
            assert forall|i: int| 0 <= i < r.unwrap()@.len() implies #[trigger] r.unwrap()@[i].wf() by {
                assert(r.unwrap()@ == spec_parse_path(path@).unwrap());
                assert(spec_parse_path(path@).unwrap()[i].wf());
            }
        }
    }
    r
}

/// The raw child numbers of a sequence of steps.
pub open spec fn spec_raws(steps: Seq<PathStep>) -> Seq<u32> {
    steps.map_values(|p: PathStep| p.spec_raw())
}

/// The raw encoding loses nothing: two well-formed step sequences with the
/// same raw child numbers are the same steps. Distinct parsed paths thus
/// name distinct positions in the key tree.
pub proof fn lemma_raws_injective(s1: Seq<PathStep>, s2: Seq<PathStep>)
    requires
        forall|i: int| 0 <= i < s1.len() ==> #[trigger] s1[i].wf(),
        forall|i: int| 0 <= i < s2.len() ==> #[trigger] s2[i].wf(),
        spec_raws(s1) == spec_raws(s2),
    ensures
        s1 == s2,
{
    assert(spec_raws(s1).len() == s1.len());
    assert(spec_raws(s2).len() == s2.len());
    assert forall|i: int| 0 <= i < s1.len() implies s1[i] == s2[i] by {
        assert(spec_raws(s1)[i] == s1[i].spec_raw());
        assert(spec_raws(s2)[i] == s2[i].spec_raw());
        assert(s1[i].wf());
        assert(s2[i].wf());
        if s1[i].hardened {
            assert(s1[i].spec_raw() == s1[i].index + HARDENED_BASE);
        }
        if s2[i].hardened {
            assert(s2[i].spec_raw() == s2[i].index + HARDENED_BASE);
        }
    }
    assert(s1 =~= s2);
}

} // verus!
