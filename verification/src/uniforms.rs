//! The fixed table of recognized shader parameters and its all-or-nothing
//! resolution rule.

use vstd::prelude::*;

use crate::errors::FractalError;

verus! {

/// The four shader parameters the fragment shader is required to declare.
/// The host resolves one GPU-side handle per slot.
#[derive(Clone, Copy, PartialEq, Eq, Structural, Debug)]
pub enum UniformSlot {
    Aspect,
    MaxIter,
    Zoom,
    Offset,
}

impl UniformSlot {
    /// The parameter name this slot is resolved under in the shader source.
    pub open spec fn spec_name(self) -> Seq<char> {
        match self {
            UniformSlot::Aspect => "aspect"@,
            UniformSlot::MaxIter => "max_iter"@,
            UniformSlot::Zoom => "zoom"@,
            UniformSlot::Offset => "offset"@,
        }
    }

    /// Executable twin of [`UniformSlot::spec_name`].
    pub fn name(self) -> (r: String)
        ensures
            r@ == self.spec_name(),
    {
        match self {
            UniformSlot::Aspect => String::from_str("aspect"),
            UniformSlot::MaxIter => String::from_str("max_iter"),
            UniformSlot::Zoom => String::from_str("zoom"),
            UniformSlot::Offset => String::from_str("offset"),
        }
    }
}

/// The canonical order in which the recognized slots are resolved.
pub open spec fn spec_recognized_slots() -> Seq<UniformSlot> {
    seq![UniformSlot::Aspect, UniformSlot::MaxIter, UniformSlot::Zoom, UniformSlot::Offset]
}

/// All recognized slots, in resolution order, for the host to iterate over.
pub fn recognized_slots() -> (v: Vec<UniformSlot>)
    ensures
        v@ == spec_recognized_slots(),
{
    let mut v: Vec<UniformSlot> = Vec::new();
    v.push(UniformSlot::Aspect);
    v.push(UniformSlot::MaxIter);
    v.push(UniformSlot::Zoom);
    v.push(UniformSlot::Offset);
    proof {
        assert(v@ =~= spec_recognized_slots());
    }
    v
}

/// Which of the recognized slots a resolution attempt found in the program.
#[derive(Clone, Copy, PartialEq, Eq, Structural, Debug)]
pub struct ResolutionOutcome {
    pub aspect: bool,
    pub max_iter: bool,
    pub zoom: bool,
    pub offset: bool,
}

impl ResolutionOutcome {
    /// True when every recognized slot was found.
    pub open spec fn all_found(self) -> bool {
        self.aspect && self.max_iter && self.zoom && self.offset
    }
}

/// The slots a resolution attempt failed to find, in canonical order.
pub open spec fn spec_missing_slots(o: ResolutionOutcome) -> Seq<UniformSlot> {
    (if o.aspect {
        Seq::<UniformSlot>::empty()
    } else {
        seq![UniformSlot::Aspect]
    }) + (if o.max_iter {
        Seq::<UniformSlot>::empty()
    } else {
        seq![UniformSlot::MaxIter]
    }) + (if o.zoom {
        Seq::<UniformSlot>::empty()
    } else {
        seq![UniformSlot::Zoom]
    }) + (if o.offset {
        Seq::<UniformSlot>::empty()
    } else {
        seq![UniformSlot::Offset]
    })
}

/// Executable twin of [`spec_missing_slots`].
pub fn missing_slots(o: ResolutionOutcome) -> (v: Vec<UniformSlot>)
    ensures
        v@ == spec_missing_slots(o),
{
    let mut v: Vec<UniformSlot> = Vec::new();
    if !o.aspect {
        v.push(UniformSlot::Aspect);
    }
    if !o.max_iter {
        v.push(UniformSlot::MaxIter);
    }
    if !o.zoom {
        v.push(UniformSlot::Zoom);
    }
    if !o.offset {
        v.push(UniformSlot::Offset);
    }
    proof {
        assert(v@ =~= spec_missing_slots(o));
    }
    v
}

/// All-or-nothing resolution: succeeds exactly when every recognized slot
/// was found; otherwise reports exactly the missing slots.
pub fn check_resolution(o: ResolutionOutcome) -> (r: Result<(), FractalError>)
    ensures
        r is Ok <==> o.all_found(),
        (r matches Result::Err(e) ==> (e matches FractalError::MissingUniform { slots }
            && slots@ == spec_missing_slots(o))),
{
    if o.aspect && o.max_iter && o.zoom && o.offset {
        Result::Ok(())
    } else {
        let slots = missing_slots(o);
        Result::Err(FractalError::MissingUniform { slots })
    }
}

} // verus!
