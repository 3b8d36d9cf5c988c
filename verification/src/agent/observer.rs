//! Observations of the screen.
//!
//! Capturing pixels and asking the vision boundary what is on them happens
//! outside the core; what belongs here is everything deterministic around an
//! observation: scaling model coordinates back to original screen space,
//! fingerprinting a capture for change detection, and assembling the
//! `ScreenState` record.  The invariant the rest of the loop relies on:
//! coordinates never leave this boundary in downscaled space.

use vstd::prelude::*;

use crate::text::{chars_of, eq_chars, fmt_hex_u64, fmt_u64, dec_spec, hex_spec};
use crate::types::{DetectedElement, ScreenState, UIElement};
use crate::vision::ScreenElement;

verus! {

pub struct Observer;

impl Observer {
    pub fn new() -> Observer {
        Observer
    }

    /// Whether two capture fingerprints differ, meaning the screen changed.
    pub fn screen_changed(&self, old_hash: &str, new_hash: &str) -> (r: bool)
        ensures
            r == (old_hash@ != new_hash@),
    {
        let a = chars_of(old_hash);
        let b = chars_of(new_hash);
        !eq_chars(&a, &b)
    }
}

// ---------------------------------------------------------------------------
// Capture fingerprints
// ---------------------------------------------------------------------------

/// The 64-bit FNV-1a digest of a byte sequence.
pub open spec fn fnv1a(s: Seq<u8>) -> u64
    decreases s.len(),
{
    if s.len() == 0 {
        0xcbf29ce484222325u64
    } else {
        (fnv1a(s.drop_last()) ^ (s.last() as u64)).wrapping_mul(0x100000001b3u64)
    }
}

/// Fingerprints captured bytes for quick change comparison, as the
/// lower-case hexadecimal FNV-1a digest.
pub fn hash_bytes(bytes: &Vec<u8>) -> (r: String)
    ensures
        r@ == hex_spec(fnv1a(bytes@) as nat),
{
    let mut h: u64 = 0xcbf29ce484222325;
    let mut i: usize = 0;
    while i < bytes.len()
        invariant
            i <= bytes@.len(),
            h == fnv1a(bytes@.subrange(0, i as int)),
        decreases bytes.len() - i,
    {
        let b = bytes[i];
        h = (h ^ (b as u64)).wrapping_mul(0x100000001b3);
        i += 1;
        proof {
            assert(bytes@.subrange(0, i as int).drop_last() =~= bytes@.subrange(0, i - 1));
            assert(bytes@.subrange(0, i as int).last() == b);
        }
    }
    proof {
        assert(bytes@.subrange(0, i as int) =~= bytes@);
    }
    fmt_hex_u64(h)
}

// ---------------------------------------------------------------------------
// Scaling back to original screen space
// ---------------------------------------------------------------------------

/// A coordinate the model reported against the downscaled capture, mapped
/// back to original screen space: scaled by the exact ratio of original to
/// resized size, saturating at the coordinate range.
pub open spec fn scale_back(c: int, orig: int, resized: int) -> int {
    if (c * orig) / resized > 0x7fffffff {
        0x7fffffff
    } else {
        (c * orig) / resized
    }
}

pub fn scale_coord(c: i32, orig: u32, resized: u32) -> (r: i32)
    requires
        c >= 0,
        resized > 0,
    ensures
        r as int == scale_back(c as int, orig as int, resized as int),
{
    proof {
        assert((c as int) * (orig as int) <= 0x7fffffff * 0xffffffffint) by (nonlinear_arith)
            requires
                0 <= c as int <= 0x7fffffff,
                0 <= orig as int <= 0xffffffff,
        ;
    }
    let prod: u64 = (c as u64) * (orig as u64);
    let q: u64 = prod / (resized as u64);
    if q > 0x7fffffff {
        0x7fffffff
    } else {
        q as i32
    }
}

/// One element the vision boundary reported, with its bounding box mapped
/// back to original screen space.
pub fn scale_element(
    label: String,
    element_type: String,
    x1: i32,
    y1: i32,
    x2: i32,
    y2: i32,
    orig_w: u32,
    res_w: u32,
    orig_h: u32,
    res_h: u32,
) -> (e: UIElement)
    requires
        x1 >= 0,
        y1 >= 0,
        x2 >= 0,
        y2 >= 0,
        res_w > 0,
        res_h > 0,
    ensures
        e.label == label,
        e.element_type == element_type,
        e.x1 as int == scale_back(x1 as int, orig_w as int, res_w as int),
        e.y1 as int == scale_back(y1 as int, orig_h as int, res_h as int),
        e.x2 as int == scale_back(x2 as int, orig_w as int, res_w as int),
        e.y2 as int == scale_back(y2 as int, orig_h as int, res_h as int),
{
    UIElement {
        label,
        element_type,
        x1: scale_coord(x1, orig_w, res_w),
        y1: scale_coord(y1, orig_h, res_h),
        x2: scale_coord(x2, orig_w, res_w),
        y2: scale_coord(y2, orig_h, res_h),
    }
}

// ---------------------------------------------------------------------------
// Assembling the observation
// ---------------------------------------------------------------------------

/// The one-line summary an observation carries.
pub open spec fn observation_description(n: nat) -> Seq<char> {
    if n == 0 {
        "No UI elements detected"@
    } else {
        "Found "@ + dec_spec(n) + " UI elements"@
    }
}

/// Assembles the observation record handed back to the loop.  The elements
/// must already be in original screen space: nothing downstream scales
/// them again.
pub fn build_screen_state(
    timestamp: u64,
    ui_elements: Vec<UIElement>,
    active_app: Option<String>,
    screenshot_hash: String,
) -> (s: ScreenState)
    ensures
        s.timestamp == timestamp,
        s.ui_elements == ui_elements,
        s.detected_elements@ =~= Seq::<DetectedElement>::empty(),
        s.active_app == active_app,
        s.screenshot_hash == screenshot_hash,
        s.description@ == observation_description(ui_elements@.len()),
{
    let n = ui_elements.len();
    let description = if n == 0 {
        String::from_str("No UI elements detected")
    } else {
        let ns = fmt_u64(n as u64);
        String::from_str("Found ").concat(ns.as_str()).concat(" UI elements")
    };
    ScreenState {
        timestamp,
        description,
        ui_elements,
        detected_elements: Vec::new(),
        active_app,
        screenshot_hash,
    }
}

/// A found element in original screen space, as the coarse observation
/// shape records it.
pub fn detected_from_element(e: &ScreenElement) -> (d: DetectedElement)
    ensures
        d.description == e.description,
        d.location == Some((e.x, e.y)),
        d.confidence == 100,
{
    DetectedElement { description: e.description.clone(), location: Some((e.x, e.y)), confidence: 100 }
}

} // verus!
