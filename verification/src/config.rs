use vstd::prelude::*;
use crate::interface::Color;

verus! {

/// Game Boy hardware model to emulate.
#[derive(Clone, Copy, PartialEq, Eq, Structural, Debug)]
pub enum Model {
    Auto,
    Dmg,
    Sgb,
    Sgb2,
    Cgb,
    Agb,
}

impl Model {
    pub open spec fn spec_is_cgb(&self) -> bool {
        *self == Model::Cgb || *self == Model::Agb
    }

    /// Whether the model is a Game Boy Color (or Advance). `Auto` has no answer.
    #[verifier::when_used_as_spec(spec_is_cgb)]
    pub fn is_cgb(&self) -> (r: bool)
        requires
            *self != Model::Auto,
        ensures
            r == self.spec_is_cgb(),
    {
        match self {
            Model::Cgb | Model::Agb => true,
            Model::Sgb | Model::Sgb2 | Model::Dmg => false,
            Model::Auto => false,
        }
    }
}

/// Where the boot ROM comes from.
#[derive(Clone, Copy, PartialEq, Eq, Structural, Debug)]
pub enum BootRom {
    Disabled,
    Internal,
    Custom,
}

/// Boot ROM images, one per model.
pub struct BootRoms {
    pub dmg: Option<Vec<u8>>,
    pub cgb: Option<Vec<u8>>,
    pub sgb: Option<Vec<u8>>,
    pub sgb2: Option<Vec<u8>>,
    pub agb: Option<Vec<u8>>,
}

impl BootRoms {
    pub fn new() -> (r: BootRoms)
        ensures
            r.dmg is None && r.cgb is None && r.sgb is None && r.sgb2 is None && r.agb is None,
    {
        BootRoms { dmg: None, cgb: None, sgb: None, sgb2: None, agb: None }
    }

    /// The image kept for `model`.
    pub open spec fn image_for(&self, model: Model) -> Option<Vec<u8>> {
        match model {
            Model::Dmg => self.dmg,
            Model::Cgb => self.cgb,
            Model::Sgb => self.sgb,
            Model::Sgb2 => self.sgb2,
            Model::Agb => self.agb,
            Model::Auto => None,
        }
    }

    pub fn get(&self, model: Model) -> (r: Option<&[u8]>)
        requires
            model != Model::Auto,
        ensures
            r is Some == self.image_for(model) is Some,
            r is Some ==> r->Some_0@ == self.image_for(model)->Some_0@,
    {
        let v = match model {
            Model::Dmg => &self.dmg,
            Model::Cgb => &self.cgb,
            Model::Sgb => &self.sgb,
            Model::Sgb2 => &self.sgb2,
            Model::Agb => &self.agb,
            Model::Auto => &self.dmg,
        };
        match v {
            Some(r) => Some(r.as_slice()),
            None => None,
        }
    }
}

/// Colors used for the four shades of a monochrome game.
#[derive(Clone, Copy, PartialEq, Eq, Structural, Debug)]
pub enum PaletteSelect {
    Dmg,
    Pocket,
    Light,
    Grayscale,
    Custom,
}

pub open spec fn rgb(r: u8, g: u8, b: u8) -> Color {
    Color { r, g, b }
}

pub open spec fn spec_palette_dmg() -> [Color; 4] {
    [rgb(120, 128, 16), rgb(92, 120, 64), rgb(56, 88, 76), rgb(40, 64, 56)]
}

pub open spec fn spec_palette_pocket() -> [Color; 4] {
    [rgb(200, 200, 168), rgb(164, 164, 140), rgb(104, 104, 84), rgb(40, 40, 20)]
}

pub open spec fn spec_palette_light() -> [Color; 4] {
    [rgb(0, 178, 132), rgb(0, 156, 116), rgb(0, 104, 74), rgb(0, 80, 56)]
}

pub open spec fn spec_palette_grayscale() -> [Color; 4] {
    [rgb(255, 255, 255), rgb(170, 170, 170), rgb(85, 85, 85), rgb(0, 0, 0)]
}

pub fn palette_dmg() -> (p: [Color; 4])
    ensures
        p == spec_palette_dmg(),
{
    [Color::new(120, 128, 16), Color::new(92, 120, 64), Color::new(56, 88, 76), Color::new(40, 64, 56)]
}

pub fn palette_pocket() -> (p: [Color; 4])
    ensures
        p == spec_palette_pocket(),
{
    [
        Color::new(200, 200, 168),
        Color::new(164, 164, 140),
        Color::new(104, 104, 84),
        Color::new(40, 40, 20),
    ]
}

pub fn palette_light() -> (p: [Color; 4])
    ensures
        p == spec_palette_light(),
{
    [Color::new(0, 178, 132), Color::new(0, 156, 116), Color::new(0, 104, 74), Color::new(0, 80, 56)]
}

pub fn palette_grayscale() -> (p: [Color; 4])
    ensures
        p == spec_palette_grayscale(),
{
    [
        Color::new(255, 255, 255),
        Color::new(170, 170, 170),
        Color::new(85, 85, 85),
        Color::new(0, 0, 0),
    ]
}

impl PaletteSelect {
    pub open spec fn palette_spec(self) -> Option<[Color; 4]> {
        match self {
            PaletteSelect::Dmg => Some(spec_palette_dmg()),
            PaletteSelect::Pocket => Some(spec_palette_pocket()),
            PaletteSelect::Light => Some(spec_palette_light()),
            PaletteSelect::Grayscale => Some(spec_palette_grayscale()),
            PaletteSelect::Custom => None,
        }
    }

    /// The built-in palette of the selection; `Custom` has none.
    pub fn get_palette(&self) -> (r: Option<[Color; 4]>)
        ensures
            r == self.palette_spec(),
    {
        match self {
            PaletteSelect::Dmg => Some(palette_dmg()),
            PaletteSelect::Pocket => Some(palette_pocket()),
            PaletteSelect::Light => Some(palette_light()),
            PaletteSelect::Grayscale => Some(palette_grayscale()),
            PaletteSelect::Custom => None,
        }
    }
}

/// Emulator settings.
#[derive(Clone, Copy)]
pub struct Config {
    pub model: Model,
    pub boot_rom: BootRom,
    pub palette: PaletteSelect,
    pub custom_palette: [Color; 4],
    pub color_correction: bool,
}

impl Config {
    /// The defaults: automatic model, internal boot ROM, Pocket palette, grayscale custom
    /// palette and color correction on.
    pub fn default_config() -> (c: Config)
        ensures
            c.model == Model::Auto,
            c.boot_rom == BootRom::Internal,
            c.palette == PaletteSelect::Pocket,
            c.custom_palette == spec_palette_grayscale(),
            c.color_correction,
    {
        Config {
            model: Model::Auto,
            boot_rom: BootRom::Internal,
            palette: PaletteSelect::Pocket,
            custom_palette: palette_grayscale(),
            color_correction: true,
        }
    }

    /// The palette in use: the selected built-in one, or the custom palette.
    pub open spec fn palette_spec(&self) -> [Color; 4] {
        match self.palette.palette_spec() {
            Some(q) => q,
            None => self.custom_palette,
        }
    }

    /// The palette in use: the selected built-in one, or the custom palette.
    pub fn palette(&self) -> (p: [Color; 4])
        ensures
            p == self.palette_spec(),
    {
        match self.palette.get_palette() {
            Some(p) => p,
            None => self.custom_palette,
        }
    }
}

} // verus!
