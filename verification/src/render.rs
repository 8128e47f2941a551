//! Page rendering settings.
use vstd::prelude::*;

verus! {

/// How a page is rendered to an image.
#[derive(Debug, Clone)]
pub struct RenderConfig {
    /// Dots per inch of the rendered image.
    pub dpi: u32,
    /// Whether annotations are drawn.
    pub with_annotations: bool,
    /// Neither side of the image exceeds this many pixels.
    pub max_dimension_px: i32,
}

/// Builds a [`RenderConfig`]; unset fields take their defaults.
#[derive(Debug, Clone)]
pub struct RenderConfigBuilder {
    dpi: Option<u32>,
    with_annotations: Option<bool>,
    max_dimension_px: Option<i32>,
}

/// Default resolution.
pub const DEFAULT_DPI: u32 = 150;

/// Default bound on either side of a rendered image.
pub const DEFAULT_MAX_DIMENSION_PX: i32 = 4096;

impl RenderConfig {
    /// A builder with no field set.
    pub fn builder() -> (b: RenderConfigBuilder)
        ensures
            b.dpi_value() is None,
            b.with_annotations_value() is None,
            b.max_dimension_px_value() is None,
    {
        RenderConfigBuilder { dpi: None, with_annotations: None, max_dimension_px: None }
    }
}

impl RenderConfigBuilder {
    /// The resolution set so far.
    pub closed spec fn dpi_value(&self) -> Option<u32> {
        self.dpi
    }

    /// The annotation flag set so far.
    pub closed spec fn with_annotations_value(&self) -> Option<bool> {
        self.with_annotations
    }

    /// The dimension bound set so far.
    pub closed spec fn max_dimension_px_value(&self) -> Option<i32> {
        self.max_dimension_px
    }

    /// Sets the resolution.
    pub fn dpi(self, dpi: u32) -> (b: RenderConfigBuilder)
        ensures
            b.dpi_value() == Some(dpi),
            b.with_annotations_value() == self.with_annotations_value(),
            b.max_dimension_px_value() == self.max_dimension_px_value(),
    {
        RenderConfigBuilder { dpi: Some(dpi), ..self }
    }

    /// Sets whether annotations are drawn.
    pub fn with_annotations(self, with_annotations: bool) -> (b: RenderConfigBuilder)
        ensures
            b.dpi_value() == self.dpi_value(),
            b.with_annotations_value() == Some(with_annotations),
            b.max_dimension_px_value() == self.max_dimension_px_value(),
    {
        RenderConfigBuilder { with_annotations: Some(with_annotations), ..self }
    }

    /// Sets the bound on either side of the image.
    pub fn max_dimension_px(self, max_dimension_px: i32) -> (b: RenderConfigBuilder)
        ensures
            b.dpi_value() == self.dpi_value(),
            b.with_annotations_value() == self.with_annotations_value(),
            b.max_dimension_px_value() == Some(max_dimension_px),
    {
        RenderConfigBuilder { max_dimension_px: Some(max_dimension_px), ..self }
    }

    /// The configuration: each field as set, or its default (150 dpi, no
    /// annotations, 4096 pixels).
    pub fn build(self) -> (c: RenderConfig)
        ensures
            c.dpi == (match self.dpi_value() {
                Some(d) => d,
                None => DEFAULT_DPI,
            }),
            c.with_annotations == (match self.with_annotations_value() {
                Some(a) => a,
                None => false,
            }),
            c.max_dimension_px == (match self.max_dimension_px_value() {
                Some(m) => m,
                None => DEFAULT_MAX_DIMENSION_PX,
            }),
    {
        RenderConfig {
            dpi: match self.dpi {
                Some(d) => d,
                None => DEFAULT_DPI,
            },
            with_annotations: match self.with_annotations {
                Some(a) => a,
                None => false,
            },
            max_dimension_px: match self.max_dimension_px {
                Some(m) => m,
                None => DEFAULT_MAX_DIMENSION_PX,
            },
        }
    }
}

} // verus!
