//! Crop boxes and their aspect-ratio presets.

use vstd::prelude::*;

verus! {

/// Aspect-ratio presets for the crop box.
#[derive(Debug, Clone, Copy, PartialEq, Eq, Structural)]
pub enum CropPreset {
    Free,
    Ratio16x9,
    Ratio1x1,
    Ratio9x16,
    Original,
}

/// The smallest width and height a crop box may have.
pub const CROP_MIN_SIZE: u32 = 16;

/// The fixed ratio of a preset, if it has one.
pub open spec fn spec_preset_ratio(preset: CropPreset) -> Option<(u32, u32)> {
    match preset {
        CropPreset::Free => None,
        CropPreset::Ratio16x9 => Some((16, 9)),
        CropPreset::Ratio1x1 => Some((1, 1)),
        CropPreset::Ratio9x16 => Some((9, 16)),
        CropPreset::Original => None,
    }
}

/// The ratio a preset imposes on an image of the given size.
pub open spec fn spec_resolve_ratio(preset: CropPreset, image_width: u32, image_height: u32) -> Option<
    (u32, u32),
> {
    match preset {
        CropPreset::Original => Some(
            (
                if image_width == 0 {
                    1
                } else {
                    image_width
                },
                if image_height == 0 {
                    1
                } else {
                    image_height
                },
            ),
        ),
        _ => spec_preset_ratio(preset),
    }
}

impl CropPreset {
    /// Every preset, in menu order.
    pub const ALL: [CropPreset; 5] = [
        CropPreset::Free,
        CropPreset::Ratio16x9,
        CropPreset::Ratio1x1,
        CropPreset::Ratio9x16,
        CropPreset::Original,
    ];

    pub fn is_free(self) -> (b: bool)
        ensures
            b == (self == CropPreset::Free),
    {
        match self {
            CropPreset::Free => true,
            _ => false,
        }
    }

    /// The label shown in the preset menu.
    pub fn label(self) -> (s: &'static str)
        ensures
            s@ == (match self {
                CropPreset::Free => "Free"@,
                CropPreset::Ratio16x9 => "16:9"@,
                CropPreset::Ratio1x1 => "1:1"@,
                CropPreset::Ratio9x16 => "9:16"@,
                CropPreset::Original => "Original"@,
            }),
    {
        match self {
            CropPreset::Free => "Free",
            CropPreset::Ratio16x9 => "16:9",
            CropPreset::Ratio1x1 => "1:1",
            CropPreset::Ratio9x16 => "9:16",
            CropPreset::Original => "Original",
        }
    }

    pub fn ratio(self) -> (r: Option<(u32, u32)>)
        ensures
            r == spec_preset_ratio(self),
    {
        match self {
            CropPreset::Free => None,
            CropPreset::Ratio16x9 => Some((16, 9)),
            CropPreset::Ratio1x1 => Some((1, 1)),
            CropPreset::Ratio9x16 => Some((9, 16)),
            CropPreset::Original => None,
        }
    }

    /// The effective ratio: the fixed one, the image's own size for `Original`
    /// (each side at least one), none for `Free`.
    pub fn resolve_ratio(self, image_width: u32, image_height: u32) -> (r: Option<(u32, u32)>)
        ensures
            r == spec_resolve_ratio(self, image_width, image_height),
    {
        match self.ratio() {
            Some(r) => Some(r),
            None => {
                if self.is_free() {
                    None
                } else {
                    let w = if image_width == 0 { 1 } else { image_width };
                    let h = if image_height == 0 { 1 } else { image_height };
                    Some((w, h))
                }
            },
        }
    }
}

/// Options of the crop tool.
#[derive(Debug, Clone, Copy, PartialEq, Eq, Structural)]
pub struct CropOptions {
    pub preset: CropPreset,
}

impl Default for CropOptions {
    fn default() -> (o: Self)
        ensures
            o.preset == CropPreset::Free,
    {
        CropOptions { preset: CropPreset::Free }
    }
}

impl CropOptions {
    pub fn set_preset(&mut self, preset: CropPreset)
        ensures
            final(self).preset == preset,
    {
        self.preset = preset;
    }
}

/// A crop box.
#[derive(Debug, Clone, Copy, PartialEq, Eq, Structural)]
pub struct CropElement {
    pub id: u64,
    pub x: i32,
    pub y: i32,
    pub width: u32,
    pub height: u32,
    pub options: CropOptions,
}

impl CropElement {
    pub fn new(id: u64, x: i32, y: i32, width: u32, height: u32, options: CropOptions) -> (c: Self)
        ensures
            c == (CropElement { id, x, y, width, height, options }),
    {
        CropElement { id, x, y, width, height, options }
    }

    /// A crop with a fixed ratio is resized from its corners only.
    pub fn supports_corner_handles_only(&self) -> (b: bool)
        ensures
            b == (self.options.preset != CropPreset::Free),
    {
        !self.options.preset.is_free()
    }
}

} // verus!
