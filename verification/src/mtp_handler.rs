//! Transfer-mode constants and the control-request handler of the
//! device-to-host interface, which rejects every request.

use vstd::prelude::*;

verus! {

/// Interface class of the file-transfer function.
pub const USB_CLASS_APPN_SPEC: u8 = 0x06;

/// Interface subclass of the file-transfer function.
pub const APPN_SPEC_SUBCLASS_MTP: u8 = 0x01;

/// Interface protocol of the file-transfer function.
pub const MTP_PROTOCOL_MTP: u8 = 0x01;

/// The interface's transfer-mode states.
#[derive(Copy, Clone, PartialEq, Eq, Structural, Debug)]
pub enum State {
    AppIdle,
    AppDetach,
    MtpIdle,
    DownloadSync,
    DownloadBusy,
    DownloadIdle,
    ManifestSync,
    Manifest,
    ManifestWaitReset,
    UploadIdle,
    Error,
}

/// The interface's status codes.
#[derive(Copy, Clone, PartialEq, Eq, Structural, Debug)]
pub enum MtpStatus {
    Okay,
    ErrTarget,
    ErrFile,
    ErrWrite,
    ErrErase,
    ErrCheckErased,
    ErrProg,
    ErrVerify,
    ErrAddress,
    ErrNotDone,
    ErrFirmware,
    ErrVendor,
    ErrUsbr,
    ErrPor,
    ErrUnknown,
    ErrStalledPkt,
}

/// The control requests the interface can receive.
#[derive(Copy, Clone, PartialEq, Eq, Structural, Debug)]
pub enum MtpRequest {
    Detach,
    Dnload,
    Upload,
    GetStatus,
    ClrStatus,
    GetState,
    Abort,
}

impl MtpRequest {
    /// The request a control-request number names, if any.
    pub fn try_from(value: u8) -> (r: Result<MtpRequest, ()>)
        ensures
            value == 0 ==> r == Result::<MtpRequest, ()>::Ok(MtpRequest::Detach),
            value == 1 ==> r == Result::<MtpRequest, ()>::Ok(MtpRequest::Dnload),
            value == 2 ==> r == Result::<MtpRequest, ()>::Ok(MtpRequest::Upload),
            value == 3 ==> r == Result::<MtpRequest, ()>::Ok(MtpRequest::GetStatus),
            value == 4 ==> r == Result::<MtpRequest, ()>::Ok(MtpRequest::ClrStatus),
            value == 5 ==> r == Result::<MtpRequest, ()>::Ok(MtpRequest::GetState),
            value == 6 ==> r == Result::<MtpRequest, ()>::Ok(MtpRequest::Abort),
            value > 6 ==> r is Err,
    {
        match value {
            0 => Ok(MtpRequest::Detach),
            1 => Ok(MtpRequest::Dnload),
            2 => Ok(MtpRequest::Upload),
            3 => Ok(MtpRequest::GetStatus),
            4 => Ok(MtpRequest::ClrStatus),
            5 => Ok(MtpRequest::GetState),
            6 => Ok(MtpRequest::Abort),
            _ => Err(()),
        }
    }
}

/// The device-side handler of control requests in transfer mode. No request
/// is implemented: every request is rejected.
pub struct UsbMtpDevice {}

impl UsbMtpDevice {
    /// A fresh handler.
    pub fn new() -> (r: Self)
        ensures
            r == (UsbMtpDevice {  }),
    {
        UsbMtpDevice {  }
    }

    /// Handles one inbound control request; no request is supported: every
    /// request is rejected, the buffer and the handler left untouched.
    pub fn handle_mtp_in<'b>(&mut self, _req: MtpRequest, _buf: &'b mut [u8]) -> (r: Result<
        &'b [u8],
        (),
    >)
        ensures
            r is Err,
            final(_buf)@ == old(_buf)@,
            *final(self) == *old(self),
    {
        Err(())
    }
}

} // verus!
