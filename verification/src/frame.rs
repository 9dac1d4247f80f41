//! The platform-independent CAN frame model with construction-time
//! validation.

use vstd::prelude::*;

use crate::errors::CanError;

verus! {

/// Largest identifier of the 11-bit standard ID space.
pub const MAX_STANDARD_ID: u32 = 0x7FF;

/// Largest identifier of the 29-bit extended ID space.
pub const MAX_EXTENDED_ID: u32 = 0x1FFF_FFFF;

/// Largest number of payload bytes one CAN frame can carry, and the
/// largest data-length-code.
pub const MAX_DLC: usize = 8;

/// The mathematical model of one frame: identifier, the `dlc` meaningful
/// payload bytes, the three mutually exclusive kind flags, and the
/// transport-attached timestamp.
#[verifier::ext_equal]
pub ghost struct FrameView {
    pub id: u32,
    pub data: Seq<u8>,
    pub extended: bool,
    pub rtr: bool,
    pub error: bool,
    pub timestamp: Option<u64>,
}

impl FrameView {
    /// The invariants every constructed frame satisfies: ID in range for
    /// its ID space, payload bounded by 8 bytes, exactly one frame kind,
    /// error frames payload-less and never extended, remote-request
    /// frames carrying only zero bytes.
    pub open spec fn wf(self) -> bool {
        &&& self.data.len() <= MAX_DLC
        &&& !(self.rtr && self.error)
        &&& self.error ==> !self.extended && self.data.len() == 0 && self.id <= MAX_EXTENDED_ID
        &&& !self.error ==> (if self.extended {
            self.id <= MAX_EXTENDED_ID
        } else {
            self.id <= MAX_STANDARD_ID
        })
        &&& self.rtr ==> (forall|i: int| 0 <= i < self.data.len() ==> self.data[i] == 0)
    }

    /// The wire-relevant part of a frame: everything but the timestamp,
    /// which is attached by a transport after a read and never encoded.
    pub open spec fn wire_view(self) -> FrameView {
        FrameView { timestamp: None, ..self }
    }
}

/// One CAN frame. Immutable after construction except for the timestamp;
/// the constructors validate every invariant of [`FrameView::wf`].
#[derive(Clone, Debug, PartialEq, Eq)]
pub struct CanFrame {
    pub(crate) id: u32,
    pub(crate) data: Vec<u8>,
    pub(crate) is_extended: bool,
    pub(crate) is_rtr: bool,
    pub(crate) is_error: bool,
    pub(crate) timestamp: Option<u64>,
}

impl View for CanFrame {
    type V = FrameView;

    open(crate) spec fn view(&self) -> FrameView {
        FrameView {
            id: self.id,
            data: self.data@,
            extended: self.is_extended,
            rtr: self.is_rtr,
            error: self.is_error,
            timestamp: self.timestamp,
        }
    }
}

impl CanFrame {
    /// Whether this frame satisfies the model invariants.
    pub open spec fn wf(self) -> bool {
        self@.wf()
    }

    /// Whether `id` fits the ID space selected by `extended`.
    fn validate_id(id: u32, extended: bool) -> (r: Result<(), CanError>)
        ensures
            r is Ok <==> id <= (if extended { MAX_EXTENDED_ID } else { MAX_STANDARD_ID }),
            r is Err ==> r == Err::<(), CanError>(CanError::ValidationError),
    {
        if extended {
            if id > MAX_EXTENDED_ID {
                return Err(CanError::ValidationError);
            }
        } else {
            if id > MAX_STANDARD_ID {
                return Err(CanError::ValidationError);
            }
        }
        Ok(())
    }

    /// Whether a payload of this length fits one frame.
    fn validate_data(data: &[u8]) -> (r: Result<(), CanError>)
        ensures
            r is Ok <==> data@.len() <= MAX_DLC,
            r is Err ==> r == Err::<(), CanError>(CanError::ValidationError),
    {
        if data.len() > MAX_DLC {
            Err(CanError::ValidationError)
        } else {
            Ok(())
        }
    }

    /// Builds a standard-ID data frame carrying `data`.
    pub fn new(id: u32, data: &[u8]) -> (r: Result<Self, CanError>)
        ensures
            r is Ok <==> (id <= MAX_STANDARD_ID && data@.len() <= MAX_DLC),
            r matches Ok(f) ==> f@ == (FrameView {
                id,
                data: data@,
                extended: false,
                rtr: false,
                error: false,
                timestamp: None,
            }),
            r matches Ok(f) ==> f.wf(),
            r is Err ==> r == Err::<Self, CanError>(CanError::ValidationError),
    {
        Self::validate_id(id, false)?;
        Self::validate_data(data)?;
        Ok(Self {
            id,
            data: vstd::slice::slice_to_vec(data),
            is_extended: false,
            is_rtr: false,
            is_error: false,
            timestamp: None,
        })
    }

    /// Builds an extended-ID data frame carrying `data`.
    pub fn new_eff(id: u32, data: &[u8]) -> (r: Result<Self, CanError>)
        ensures
            r is Ok <==> (id <= MAX_EXTENDED_ID && data@.len() <= MAX_DLC),
            r matches Ok(f) ==> f@ == (FrameView {
                id,
                data: data@,
                extended: true,
                rtr: false,
                error: false,
                timestamp: None,
            }),
            r matches Ok(f) ==> f.wf(),
            r is Err ==> r == Err::<Self, CanError>(CanError::ValidationError),
    {
        Self::validate_id(id, true)?;
        Self::validate_data(data)?;
        Ok(Self {
            id,
            data: vstd::slice::slice_to_vec(data),
            is_extended: true,
            is_rtr: false,
            is_error: false,
            timestamp: None,
        })
    }

    /// Builds a remote-transmission-request frame: no payload is carried,
    /// `dlc` declares the requested length and the payload bytes are zero.
    pub fn new_remote(id: u32, dlc: usize, is_extended: bool) -> (r: Result<Self, CanError>)
        ensures
            r is Ok <==> (dlc <= MAX_DLC && id <= (if is_extended {
                MAX_EXTENDED_ID
            } else {
                MAX_STANDARD_ID
            })),
            r matches Ok(f) ==> f@ == (FrameView {
                id,
                data: Seq::new(dlc as nat, |i: int| 0u8),
                extended: is_extended,
                rtr: true,
                error: false,
                timestamp: None,
            }),
            r matches Ok(f) ==> f.wf(),
            r is Err ==> r == Err::<Self, CanError>(CanError::ValidationError),
    {
        if dlc > MAX_DLC {
            return Err(CanError::ValidationError);
        }
        Self::validate_id(id, is_extended)?;
        let mut buf: Vec<u8> = Vec::new();
        let mut i: usize = 0;
        while i < dlc
            invariant
                i <= dlc,
                buf@ =~= Seq::new(i as nat, |j: int| 0u8),
            decreases dlc - i,
        {
            buf.push(0u8);
            i = i + 1;
        }
        proof {
            assert(buf@ =~= Seq::new(dlc as nat, |i: int| 0u8));
        }
        Ok(Self {
            id,
            data: buf,
            is_extended,
            is_rtr: true,
            is_error: false,
            timestamp: None,
        })
    }

    /// Builds a payload-less error frame; the ID is diagnostic, bounded
    /// only by the 29-bit space.
    pub fn new_error(id: u32) -> (r: Result<Self, CanError>)
        ensures
            r is Ok <==> id <= MAX_EXTENDED_ID,
            r matches Ok(f) ==> f@ == (FrameView {
                id,
                data: Seq::empty(),
                extended: false,
                rtr: false,
                error: true,
                timestamp: None,
            }),
            r matches Ok(f) ==> f.wf(),
            r is Err ==> r == Err::<Self, CanError>(CanError::ValidationError),
    {
        if id > MAX_EXTENDED_ID {
            return Err(CanError::ValidationError);
        }
        Ok(Self {
            id,
            data: Vec::new(),
            is_extended: false,
            is_rtr: false,
            is_error: true,
            timestamp: None,
        })
    }

    /// The sole post-construction mutator: attaches or clears the capture
    /// time a transport learned out-of-band.
    pub fn set_timestamp(&mut self, ts: Option<u64>)
        ensures
            final(self)@ == (FrameView { timestamp: ts, ..old(self)@ }),
    {
        self.timestamp = ts;
    }

    /// The capture time, if the frame was obtained from a live read.
    pub fn timestamp(&self) -> (r: Option<u64>)
        ensures
            r == self@.timestamp,
    {
        self.timestamp
    }

    /// The frame identifier.
    pub fn id(&self) -> (r: u32)
        ensures
            r == self@.id,
    {
        self.id
    }

    /// The payload, truncated to the `dlc` meaningful bytes.
    pub fn data(&self) -> (r: &[u8])
        ensures
            r@ == self@.data,
    {
        self.data.as_slice()
    }

    /// The data-length-code: the declared payload length.
    pub fn dlc(&self) -> (r: usize)
        ensures
            r == self@.data.len(),
    {
        self.data.len()
    }

    /// Whether the ID occupies the 29-bit extended space.
    pub fn is_extended(&self) -> (r: bool)
        ensures
            r == self@.extended,
    {
        self.is_extended
    }

    /// Whether this is a remote-transmission request.
    pub fn is_rtr(&self) -> (r: bool)
        ensures
            r == self@.rtr,
    {
        self.is_rtr
    }

    /// Whether this frame reports a bus error condition.
    pub fn is_error(&self) -> (r: bool)
        ensures
            r == self@.error,
    {
        self.is_error
    }
}

} // verus!
