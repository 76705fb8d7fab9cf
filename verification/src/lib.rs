//! Colour science for adaptive user-interface themes: the HCT colour space
//! (CAM16 hue and chroma, L* tone), tonal palettes, contrast arithmetic and
//! the dynamic colour schemes built on them.
//!
//! # Numbers
//!
//! Every real quantity is a [`fixed::Fixed`]: a decimal fixed-point number
//! with twelve fractional digits whose arithmetic is total and saturating.
//! Sums and differences are exact, products and quotients are rounded down,
//! square and cube roots are exact integer roots, and the transcendental
//! functions are evaluated by power series that are part of their
//! specification. Nothing depends on the machine's floating point.
//!
//! # Contracts
//!
//! Every function is specified by a `spec` function over the same numbers,
//! so every result is a function of the arguments alone: what a cache holds
//! never changes an answer. On top of that the library proves, among
//! others:
//!
//! - that the tone which [`contrast::lighter`] or [`contrast::darker`]
//!   returns has the contrast asked for
//!   ([`contrast_laws::lemma_lighter_reaches_ratio`]), and so has the tone of
//!   a foreground role wherever some tone has it;
//! - that no role of a scheme refers to itself through its backgrounds, its
//!   pair or its tone rule, under either version of the rules
//!   ([`dynamiccolor::material_dynamic_colors::lemma_roles_refer_downwards`]):
//!   resolving a role always comes to an end;
//! - that backgrounds stay out of the middle tones and the roles of a pair
//!   keep their distance ([`dynamiccolor::laws`]);
//! - that the solver of HCT always answers with an opaque colour.
//!
//! # Modules
//!
//! - [`fixed`]: the numbers and their elementary functions.
//! - [`utils`]: conversions between ARGB, XYZ, L*a*b* and L*, angles, and
//!   colours as text.
//! - [`hct`]: CAM16, viewing conditions, the solver and the HCT colour.
//! - [`palettes`]: tonal palettes and their key colours.
//! - [`contrast`], [`dislike_analyzer`], [`temperature`], [`blend`],
//!   [`score`], [`quantize`]: what schemes are built from and around.
//! - [`dynamiccolor`]: schemes, the roles under both versions of the rules,
//!   and their resolution.
pub mod blend;
pub mod contrast;
pub mod contrast_laws;
pub mod dislike_analyzer;
pub mod dynamiccolor;
pub mod fixed;
pub mod hct;
pub mod palettes;
pub mod quantize;
pub mod score;
pub mod temperature;
pub mod templates;
pub mod utils;
