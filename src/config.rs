//! The resolved overlay configuration and how a partial document on disk
//! resolves into it.

use vstd::prelude::*;
use crate::shape::{
    default_shape, footprint, footprint_fits, Crosshair, Dot, Shape, ShapeSize, Twix,
};

verus! {

/// Where the overlay sits on screen.
#[derive(Debug, Clone, Copy, PartialEq, Eq, Structural)]
pub enum Position {
    Center,
    Custom { x: u32, y: u32 },
}

/// Bit pattern of the `f64` opacity used when the document gives none (0.7).
pub const DEFAULT_ALPHA_BITS: u64 = 0x3FE6666666666666;

/// A fully specified configuration.
///
/// The opacity, meant to lie in 0.0 to 1.0, is carried as the bit pattern of
/// an `f64` (see `f64::to_bits`): the library passes it through as given,
/// neither validated nor clamped.
#[derive(Debug)]
pub struct AppConfig {
    pub shape: Shape,
    pub size: ShapeSize,
    pub color: String,
    pub alpha_bits: u64,
    pub debug: bool,
    pub position: Position,
    pub protected: bool,
}

/// The configuration document as read from disk: every field optional.
#[derive(Debug)]
pub struct ConfigData {
    pub crosshair: Option<Crosshair>,
    pub dot: Option<Dot>,
    pub twix: Option<Twix>,
    pub color: Option<String>,
    pub alpha_bits: Option<u64>,
    pub debug: Option<bool>,
    pub position: Option<Position>,
    pub protected: Option<bool>,
}

/// The colour used when the document gives none.
pub open spec fn default_color() -> Seq<char> {
    seq!['g', 'r', 'e', 'e', 'n']
}

/// `c` is the built-in configuration.
pub open spec fn is_default_config(c: AppConfig) -> bool {
    &&& c.shape == default_shape()
    &&& c.size == footprint(default_shape())
    &&& c.color@ == default_color()
    &&& c.alpha_bits == DEFAULT_ALPHA_BITS
    &&& !c.debug
    &&& c.position == Position::Center
    &&& c.protected
}

/// The shape a document selects: the first of crosshair, dot and twix that
/// it gives, else the built-in shape.
pub open spec fn selected_shape(d: ConfigData) -> Shape {
    match d.crosshair {
        Some(c) => Shape::Crosshair(c),
        None => match d.dot {
            Some(dot) => Shape::Dot(dot),
            None => match d.twix {
                Some(t) => Shape::Twix(t),
                None => default_shape(),
            },
        },
    }
}

/// `c` is what the document `d` resolves to: each field taken from the
/// document where it is given, else the built-in value, and the size derived
/// from the selected shape.
pub open spec fn resolves_from(d: ConfigData, c: AppConfig) -> bool {
    &&& c.shape == selected_shape(d)
    &&& c.size == footprint(selected_shape(d))
    &&& c.color@ == (match d.color {
        Some(s) => s@,
        None => default_color(),
    })
    &&& c.alpha_bits == (match d.alpha_bits {
        Some(a) => a,
        None => DEFAULT_ALPHA_BITS,
    })
    &&& c.debug == (match d.debug {
        Some(b) => b,
        None => false,
    })
    &&& c.position == (match d.position {
        Some(p) => p,
        None => Position::Center,
    })
    &&& c.protected == (match d.protected {
        Some(b) => b,
        None => true,
    })
}

/// The document, if any, can be resolved: its selected shape has a footprint
/// that fits in `u32`.
pub open spec fn resolvable(doc: Option<ConfigData>) -> bool {
    match doc {
        Some(d) => footprint_fits(selected_shape(d)),
        None => true,
    }
}

/// `c` is what an optional document resolves to: the built-in configuration
/// when there is no document (missing or unreadable file).
pub open spec fn resolves(doc: Option<ConfigData>, c: AppConfig) -> bool {
    match doc {
        Some(d) => resolves_from(d, c),
        None => is_default_config(c),
    }
}

impl Clone for AppConfig {
    fn clone(&self) -> (r: AppConfig)
        ensures
            r == *self,
    {
        AppConfig {
            shape: self.shape,
            size: self.size,
            color: self.color.clone(),
            alpha_bits: self.alpha_bits,
            debug: self.debug,
            position: self.position,
            protected: self.protected,
        }
    }
}

impl Default for AppConfig {
    fn default() -> (r: AppConfig)
        ensures
            is_default_config(r),
    {
        let shape = Shape::default();
        let size = shape.size();
        let color = "green".to_owned();
        proof {
            reveal_strlit("green");
            assert(color@ =~= default_color());
        }
        AppConfig {
            shape,
            size,
            color,
            alpha_bits: DEFAULT_ALPHA_BITS,
            debug: false,
            position: Position::Center,
            protected: true,
        }
    }
}

impl ConfigData {
    /// The shape this document selects.
    pub fn shape(&self) -> (r: Shape)
        ensures
            r == selected_shape(*self),
    {
        match self.crosshair {
            Some(c) => Shape::Crosshair(c),
            None => match self.dot {
                Some(d) => Shape::Dot(d),
                None => match self.twix {
                    Some(t) => Shape::Twix(t),
                    None => Shape::default(),
                },
            },
        }
    }
}

impl AppConfig {
    /// Fills the fields the document leaves out with the built-in values.
    pub fn from_data(cfg: ConfigData) -> (r: AppConfig)
        requires
            footprint_fits(selected_shape(cfg)),
        ensures
            resolves_from(cfg, r),
    {
        let shape = cfg.shape();
        let size = shape.size();
        let color = match cfg.color {
            Some(c) => c,
            None => {
                let g = "green".to_owned();
                proof {
                    reveal_strlit("green");
                    assert(g@ =~= default_color());
                }
                g
            },
        };
        AppConfig {
            shape,
            size,
            color,
            alpha_bits: match cfg.alpha_bits {
                Some(a) => a,
                None => DEFAULT_ALPHA_BITS,
            },
            debug: match cfg.debug {
                Some(b) => b,
                None => false,
            },
            position: match cfg.position {
                Some(p) => p,
                None => Position::Center,
            },
            protected: match cfg.protected {
                Some(b) => b,
                None => true,
            },
        }
    }

    /// Resolves an optional document; no document gives the built-in
    /// configuration.
    pub fn resolve(doc: Option<ConfigData>) -> (r: AppConfig)
        requires
            resolvable(doc),
        ensures
            resolves(doc, r),
    {
        match doc {
            Some(d) => AppConfig::from_data(d),
            None => AppConfig::default(),
        }
    }
}

/// Every resolution of an absent document, whether the file was missing or
/// could not be parsed, gives the same fully specified configuration.
pub proof fn absent_documents_resolve_alike(a: AppConfig, b: AppConfig)
    requires
        resolves(None, a),
        resolves(None, b),
    ensures
        is_default_config(a),
        a.shape == b.shape,
        a.size == b.size,
        a.color@ == b.color@,
        a.alpha_bits == b.alpha_bits,
        a.debug == b.debug,
        a.position == b.position,
        a.protected == b.protected,
{
}

} // verus!
