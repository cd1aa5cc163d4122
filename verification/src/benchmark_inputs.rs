//! Inputs for benchmarking the pallet's calls: justifications and descriptions that
//! reference off-chain evidence, padded to a requested length while staying below the
//! configured bound.
use vstd::prelude::*;
use vstd::string::{is_ascii, is_ascii_spec_bytes, StrSliceExecFns, StringSliceAdditionalSpecFns};
use crate::pallet::Config;

verus! {

/// `base` followed by padding bytes up to `length` bytes, where the length is capped
/// ten bytes below `max`; when `length` does not exceed the base, the base alone.
pub open spec fn padded_text(base: Seq<u8>, pad: u8, length: u32, max: u32) -> Seq<u8> {
    if length > base.len() {
        let cap: int = if max >= 10 { max - 10 } else { 0 };
        let upto: int = if length < cap { length as int } else { cap };
        let extra: int = if upto >= base.len() { upto - base.len() } else { 0 };
        base + Seq::new(extra as nat, |_i: int| pad)
    } else {
        base
    }
}

/// The text every benchmark justification starts with.
pub open spec fn justification_base() -> Seq<u8> {
    "Justification with evidence at: ipfs://QmHash123".spec_bytes()
}

/// The text every benchmark description starts with.
pub open spec fn description_base() -> Seq<u8> {
    "Description with evidence at: ipfs://QmHash456".spec_bytes()
}

fn pad_to(base: Vec<u8>, pad: u8, length: u32, max: u32) -> (r: Vec<u8>)
    requires
        base@.len() <= u32::MAX,
    ensures
        r@ == padded_text(base@, pad, length, max),
{
    let n: u32 = base.len() as u32;
    if length > n {
        let max_length = max.saturating_sub(10);
        let upto = if length < max_length { length } else { max_length };
        let safe_length = upto.saturating_sub(n);
        let mut result = base;
        let ghost start = result@;
        let mut i: u32 = 0;
        while i < safe_length
            invariant
                i <= safe_length,
                result@ == start + Seq::new(i as nat, |_j: int| pad),
            decreases safe_length - i,
        {
            result.push(pad);
            i = i + 1;
            assert(result@ =~= start + Seq::new(i as nat, |_j: int| pad));
        }
        result
    } else {
        base
    }
}

/// A justification of about `length` bytes for benchmarking: the base text padded with
/// `x` up to `length`, at most ten bytes short of the configured bound.
pub fn create_justification(config: &Config, length: u32) -> (r: Vec<u8>)
    ensures
        r@ == padded_text(justification_base(), 120, length, config.max_justification_length),
{
    let base_text = "Justification with evidence at: ipfs://QmHash123";
    proof {
        reveal_strlit("Justification with evidence at: ipfs://QmHash123");
        broadcast use is_ascii_spec_bytes;
        assert(is_ascii(base_text));
        assert(base_text.spec_bytes().len() == 48);
    }
    let base = base_text.as_bytes_vec();
    pad_to(base, 120, length, config.max_justification_length)
}

/// A description of about `length` bytes for benchmarking: the base text padded with
/// `y` up to `length`, at most ten bytes short of the configured bound.
pub fn create_description(config: &Config, length: u32) -> (r: Vec<u8>)
    ensures
        r@ == padded_text(description_base(), 121, length, config.max_description_length),
{
    let base_text = "Description with evidence at: ipfs://QmHash456";
    proof {
        reveal_strlit("Description with evidence at: ipfs://QmHash456");
        broadcast use is_ascii_spec_bytes;
        assert(is_ascii(base_text));
        assert(base_text.spec_bytes().len() == 46);
    }
    let base = base_text.as_bytes_vec();
    pad_to(base, 121, length, config.max_description_length)
}

} // verus!
