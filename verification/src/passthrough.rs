//! The passthrough layer and its place among the layers of a frame.

use vstd::prelude::*;

verus! {

/// The runtime's handle of a passthrough layer.
#[derive(Clone, Copy, Debug, PartialEq, Eq, Structural)]
pub struct XrPassthroughLayer(pub u64);

impl XrPassthroughLayer {
    pub fn new(raw: u64) -> (layer: XrPassthroughLayer)
        ensures
            layer == XrPassthroughLayer(raw),
    {
        XrPassthroughLayer(raw)
    }
}

/// A layer of a frame.
#[derive(Clone, Copy, Debug, PartialEq, Eq, Structural)]
pub enum CompositionLayer {
    /// The camera image of the surroundings.
    Passthrough(XrPassthroughLayer),
    /// What was rendered for the two eyes.
    Projection,
}

/// What a frame is submitted with.
#[derive(Clone, Copy, Debug, PartialEq, Eq, Structural)]
pub enum FrameLayers {
    /// No layer: nothing was rendered.
    Empty,
    /// The projection layer alone.
    Projection,
    /// The projection layer in front of a passthrough layer.
    OverPassthrough(XrPassthroughLayer),
}

impl FrameLayers {
    /// The layers of a rendered frame: the projection layer, over the
    /// passthrough layer where there is one.
    pub open spec fn rendered(passthrough: Option<XrPassthroughLayer>) -> FrameLayers {
        match passthrough {
            Some(layer) => FrameLayers::OverPassthrough(layer),
            None => FrameLayers::Projection,
        }
    }

    /// The layers from the backmost to the frontmost.
    pub open spec fn back_to_front(self) -> Seq<CompositionLayer> {
        match self {
            FrameLayers::Empty => Seq::empty(),
            FrameLayers::Projection => seq![CompositionLayer::Projection],
            FrameLayers::OverPassthrough(layer) => seq![
                CompositionLayer::Passthrough(layer),
                CompositionLayer::Projection,
            ],
        }
    }

    /// The layers in the order of submission: from the backmost to the
    /// frontmost, so that a passthrough layer comes first.
    pub fn layers(self) -> (layers: Vec<CompositionLayer>)
        ensures
            layers@ == self.back_to_front(),
    {
        let mut layers: Vec<CompositionLayer> = Vec::new();
        match self {
            FrameLayers::Empty => {},
            FrameLayers::Projection => {
                layers.push(CompositionLayer::Projection);
            },
            FrameLayers::OverPassthrough(layer) => {
                layers.push(CompositionLayer::Passthrough(layer));
                layers.push(CompositionLayer::Projection);
            },
        }
        assert(layers@ =~= self.back_to_front());
        layers
    }
}

/// Whether the system `system` can show passthrough. A system is asked
/// only where the instance offers the passthrough extension, and every
/// such system is taken to support it.
pub fn supports_passthrough(system: u64) -> (supported: bool)
    ensures
        supported,
{
    true
}

} // verus!
