use vstd::prelude::*;

use crate::overlay_info::OverlayInfoOps;
use crate::text::{chars_eq_str, chars_of, lower_chars, lower_seq};

verus! {

/// The eight bytes every PNG file starts with.
pub open spec fn png_signature() -> Seq<u8> {
    seq![137u8, 80u8, 78u8, 71u8, 13u8, 10u8, 26u8, 10u8]
}

/// Whether `bytes` start with the PNG signature.
pub open spec fn is_png_spec(bytes: Seq<u8>) -> bool {
    bytes.len() >= 8 && bytes.take(8) == png_signature()
}

/// Whether a path's extension (as the path gives it) is `png` in any ASCII case.
pub open spec fn png_extension_spec(extension: Option<Seq<char>>) -> bool {
    match extension {
        Some(e) => lower_seq(e) == "png"@,
        None => false,
    }
}

impl OverlayInfoOps {
    /// Whether the data start with the PNG signature.
    pub fn is_png_signature(bytes: &[u8]) -> (r: bool)
        ensures
            r == is_png_spec(bytes@),
    {
        if bytes.len() < 8 {
            return false;
        }
        let sig: [u8; 8] = [137, 80, 78, 71, 13, 10, 26, 10];
        let mut i: usize = 0;
        while i < 8
            invariant
                i <= 8,
                bytes@.len() >= 8,
                sig@ == png_signature(),
                forall|j: int| 0 <= j < i ==> bytes@[j] == png_signature()[j],
            decreases 8 - i,
        {
            if bytes[i] != sig[i] {
                proof {
                    assert(bytes@.take(8)[i as int] != png_signature()[i as int]);
                }
                return false;
            }
            i = i + 1;
        }
        proof {
            assert(bytes@.take(8) =~= png_signature());
        }
        true
    }

    /// Whether a screenshot may be written: the path's extension (as the path gives it) must be
    /// `png` and the data must be a PNG image, each with its own error.
    pub fn check_overlay_screenshot(extension: Option<&str>, png_bytes: &[u8]) -> (r: Result<(), String>)
        ensures
            !png_extension_spec(
                match extension {
                    Some(e) => Some(e@),
                    None => None,
                },
            ) ==> (r matches Err(m) && m@ == "Overlay screenshot path must end with .png"@),
            png_extension_spec(
                match extension {
                    Some(e) => Some(e@),
                    None => None,
                },
            ) && !is_png_spec(png_bytes@) ==> (r matches Err(m) && m@ == "Overlay screenshot data is not a PNG image"@),
            png_extension_spec(
                match extension {
                    Some(e) => Some(e@),
                    None => None,
                },
            ) && is_png_spec(png_bytes@) ==> r is Ok,
    {
        let png = match extension {
            Some(e) => {
                let l = lower_chars(&chars_of(e));
                chars_eq_str(&l, "png")
            },
            None => false,
        };
        if !png {
            return Err(String::from_str("Overlay screenshot path must end with .png"));
        }
        if !Self::is_png_signature(png_bytes) {
            return Err(String::from_str("Overlay screenshot data is not a PNG image"));
        }
        Ok(())
    }
}

} // verus!
