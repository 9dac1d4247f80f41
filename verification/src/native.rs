//! The model of a kernel CAN-socket facility's frame representation, and
//! the conversions between it and the frame model.
//!
//! The facility's frames are mirrored here as plain values: an identifier
//! tagged with its ID space, and one of the three frame kinds. The
//! unverified adapter that owns the socket translates the facility's own
//! types to and from these values field by field; everything the
//! conversion rules decide is proved here.

use vstd::prelude::*;

use crate::errors::CanError;
use crate::frame::{CanFrame, FrameView, MAX_DLC, MAX_EXTENDED_ID, MAX_STANDARD_ID};

verus! {

/// A frame identifier as the native facility tags it: 11-bit standard or
/// 29-bit extended.
#[derive(Clone, Copy, Debug, PartialEq, Eq, Structural)]
pub enum NativeId {
    Standard(u16),
    Extended(u32),
}

impl NativeId {
    /// The identifier fits the space its tag names.
    pub open spec fn wf(self) -> bool {
        match self {
            NativeId::Standard(id) => id <= MAX_STANDARD_ID as u16,
            NativeId::Extended(id) => id <= MAX_EXTENDED_ID,
        }
    }

    /// The raw identifier value.
    pub open spec fn raw(self) -> u32 {
        match self {
            NativeId::Standard(id) => id as u32,
            NativeId::Extended(id) => id,
        }
    }

    /// Whether the tag names the extended space.
    pub open spec fn is_ext(self) -> bool {
        self is Extended
    }
}

/// One frame as the native facility represents it: a data frame with its
/// payload, a remote request with its declared length, or an error frame
/// whose identifier is diagnostic.
#[derive(Clone, Debug, PartialEq, Eq)]
pub enum NativeFrame {
    Data { id: NativeId, data: Vec<u8> },
    Remote { id: NativeId, dlc: usize },
    Error { id: u32 },
}

/// The mathematical model of a native frame.
#[verifier::ext_equal]
pub ghost enum NativeView {
    Data { id: u32, extended: bool, data: Seq<u8> },
    Remote { id: u32, extended: bool, dlc: nat },
    Error { id: u32 },
}

impl NativeView {
    /// The bounds the native facility itself enforces on its frames.
    pub open spec fn wf(self) -> bool {
        match self {
            NativeView::Data { id, extended, data } => data.len() <= MAX_DLC && id <= (if extended {
                MAX_EXTENDED_ID
            } else {
                MAX_STANDARD_ID
            }),
            NativeView::Remote { id, extended, dlc } => dlc <= MAX_DLC && id <= (if extended {
                MAX_EXTENDED_ID
            } else {
                MAX_STANDARD_ID
            }),
            NativeView::Error { id } => id <= MAX_EXTENDED_ID,
        }
    }
}

impl View for NativeFrame {
    type V = NativeView;

    open spec fn view(&self) -> NativeView {
        match self {
            NativeFrame::Data { id, data } => NativeView::Data {
                id: id.raw(),
                extended: id.is_ext(),
                data: data@,
            },
            NativeFrame::Remote { id, dlc } => NativeView::Remote {
                id: id.raw(),
                extended: id.is_ext(),
                dlc: *dlc as nat,
            },
            NativeFrame::Error { id } => NativeView::Error { id: *id },
        }
    }
}

/// The frame a native frame stands for: discrimination goes by the
/// (remote, error, extended) tags, a remote request carries `dlc` zero
/// bytes, and an error frame is payload-less with its raw identifier.
pub open spec fn frame_of_native(n: NativeView) -> FrameView {
    match n {
        NativeView::Data { id, extended, data } => FrameView {
            id,
            data,
            extended,
            rtr: false,
            error: false,
            timestamp: None,
        },
        NativeView::Remote { id, extended, dlc } => FrameView {
            id,
            data: Seq::new(dlc, |i: int| 0u8),
            extended,
            rtr: true,
            error: false,
            timestamp: None,
        },
        NativeView::Error { id } => FrameView {
            id,
            data: Seq::empty(),
            extended: false,
            rtr: false,
            error: true,
            timestamp: None,
        },
    }
}

/// The native frame a frame is sent as: the inverse discrimination.
pub open spec fn native_of_frame(f: FrameView) -> NativeView {
    if f.error {
        NativeView::Error { id: f.id }
    } else if f.rtr {
        NativeView::Remote { id: f.id, extended: f.extended, dlc: f.data.len() }
    } else {
        NativeView::Data { id: f.id, extended: f.extended, data: f.data }
    }
}

/// Ingest then egress reproduces the native frame: the conversion loses
/// nothing in the native-to-model direction, for all three frame kinds.
pub proof fn lemma_native_round_trip_ingest(n: NativeView)
    requires
        n.wf(),
    ensures
        native_of_frame(frame_of_native(n)) == n,
{
    match n {
        NativeView::Remote { id, extended, dlc } => {
            assert(Seq::new(dlc, |i: int| 0u8).len() == dlc);
            assert(native_of_frame(frame_of_native(n)) =~= n);
        },
        _ => {},
    }
}

/// Egress then ingest reproduces the frame, except the timestamp, which
/// the native representation does not carry: the conversion loses
/// nothing in the model-to-native direction, for all three frame kinds.
pub proof fn lemma_native_round_trip_egress(f: FrameView)
    requires
        f.wf(),
    ensures
        frame_of_native(native_of_frame(f)) == f.wire_view(),
{
    if !f.error && f.rtr {
        assert(Seq::new(f.data.len(), |i: int| 0u8) =~= f.data);
    }
    assert(frame_of_native(native_of_frame(f)) =~= f.wire_view());
}

impl CanFrame {
    /// Reconstructs a frame from a native frame read off the bus. The
    /// mapping is total on every frame the native facility can itself
    /// hold; a native frame outside those bounds is a `ValidationError`.
    pub fn from_native(n: &NativeFrame) -> (r: Result<CanFrame, CanError>)
        ensures
            r is Ok <==> n@.wf(),
            r matches Ok(f) ==> f@ == frame_of_native(n@) && f.wf(),
            r is Err ==> r == Err::<CanFrame, CanError>(CanError::ValidationError),
    {
        match n {
            NativeFrame::Data { id, data } => {
                let raw = id.raw_value();
                match id {
                    NativeId::Extended(_) => CanFrame::new_eff(raw, data.as_slice()),
                    NativeId::Standard(_) => CanFrame::new(raw, data.as_slice()),
                }
            },
            NativeFrame::Remote { id, dlc } => {
                let raw = id.raw_value();
                CanFrame::new_remote(raw, *dlc, id.is_extended_value())
            },
            NativeFrame::Error { id } => CanFrame::new_error(*id),
        }
    }

    /// Renders this frame as the native frame it is sent as. Because the
    /// model's validation rules match the native facility's bounds, this
    /// is total on well-formed frames.
    pub fn to_native(&self) -> (r: NativeFrame)
        requires
            self.wf(),
        ensures
            r@ == native_of_frame(self@),
            r@.wf(),
    {
        if self.is_error() {
            NativeFrame::Error { id: self.id() }
        } else if self.is_rtr() {
            NativeFrame::Remote { id: self.native_id(), dlc: self.dlc() }
        } else {
            NativeFrame::Data { id: self.native_id(), data: vstd::slice::slice_to_vec(self.data()) }
        }
    }

    /// The tagged native identifier of a non-error frame.
    fn native_id(&self) -> (r: NativeId)
        requires
            self.wf(),
            !self@.error,
        ensures
            r.wf(),
            r.raw() == self@.id,
            r.is_ext() == self@.extended,
    {
        if self.is_extended() {
            NativeId::Extended(self.id())
        } else {
            NativeId::Standard(self.id() as u16)
        }
    }
}

impl NativeId {
    /// The raw identifier value.
    pub fn raw_value(&self) -> (r: u32)
        ensures
            r == self.raw(),
    {
        match self {
            NativeId::Standard(id) => *id as u32,
            NativeId::Extended(id) => *id,
        }
    }

    /// Whether the tag names the extended space.
    pub fn is_extended_value(&self) -> (r: bool)
        ensures
            r == self.is_ext(),
    {
        match self {
            NativeId::Standard(_) => false,
            NativeId::Extended(_) => true,
        }
    }
}

} // verus!
