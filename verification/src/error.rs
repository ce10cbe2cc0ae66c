//! Status codes reported by the media device collaborators, and the
//! translation of raw numeric results into typed errors.
//!
//! The collaborators report results as integers from a large enumerated
//! space. Every recognized non-ok code is translated into a typed error;
//! an unrecognized integer is passed through as a non-error numeric result,
//! since unknown codes are not assumed to be errors.

use vstd::prelude::*;

verus! {

/// A status reported by a codec device, demuxer or muxer operation.
#[derive(Clone, Copy, Debug, PartialEq, Eq, Structural)]
pub enum MediaStatus {
    Okay,
    ErrorInsufficientResource,
    ErrorReclaimed,
    ErrorUnknown,
    ErrorMalformed,
    ErrorUnsupported,
    ErrorInvalidObject,
    ErrorInvalidParameter,
    ErrorInvalidOperation,
    ErrorEndOfStream,
    ErrorIO,
    ErrorWouldBlock,
    DRMErrorBase,
    DRMNotProvisioned,
    DRMResourceBusy,
    DRMDeviceRevoked,
    DRMShortBuffer,
    DRMSessionNotOpened,
    DRMTamperDetected,
    DRMVerifyFailed,
    DRMNeedKey,
    DRMLicenseExpired,
    ImgReaderErrorBase,
    ImgReaderNoBufferAvailable,
    ImgReaderMaxImagesAcquired,
    ImgReaderCannotLockImage,
    ImgReaderCannotUnlockImage,
    ImgReaderImageNotLocked,
}

impl MediaStatus {
    /// The numeric code of this status in the collaborators' space.
    pub open spec fn spec_code(self) -> int {
        match self {
            MediaStatus::Okay => 0,
            MediaStatus::ErrorInsufficientResource => 1100,
            MediaStatus::ErrorReclaimed => 1101,
            MediaStatus::ErrorUnknown => -10000,
            MediaStatus::ErrorMalformed => -10001,
            MediaStatus::ErrorUnsupported => -10002,
            MediaStatus::ErrorInvalidObject => -10003,
            MediaStatus::ErrorInvalidParameter => -10004,
            MediaStatus::ErrorInvalidOperation => -10005,
            MediaStatus::ErrorEndOfStream => -10006,
            MediaStatus::ErrorIO => -10007,
            MediaStatus::ErrorWouldBlock => -10008,
            MediaStatus::DRMErrorBase => -20000,
            MediaStatus::DRMNotProvisioned => -20001,
            MediaStatus::DRMResourceBusy => -20002,
            MediaStatus::DRMDeviceRevoked => -20003,
            MediaStatus::DRMShortBuffer => -20004,
            MediaStatus::DRMSessionNotOpened => -20005,
            MediaStatus::DRMTamperDetected => -20006,
            MediaStatus::DRMVerifyFailed => -20007,
            MediaStatus::DRMNeedKey => -20008,
            MediaStatus::DRMLicenseExpired => -20009,
            MediaStatus::ImgReaderErrorBase => -30000,
            MediaStatus::ImgReaderNoBufferAvailable => -30001,
            MediaStatus::ImgReaderMaxImagesAcquired => -30002,
            MediaStatus::ImgReaderCannotLockImage => -30003,
            MediaStatus::ImgReaderCannotUnlockImage => -30004,
            MediaStatus::ImgReaderImageNotLocked => -30005,
        }
    }

    /// The status that a numeric code stands for, if any.
    pub open spec fn spec_from_code(value: int) -> Option<MediaStatus> {
        if value == 0 {
            Some(MediaStatus::Okay)
        } else if value == 1100 {
            Some(MediaStatus::ErrorInsufficientResource)
        } else if value == 1101 {
            Some(MediaStatus::ErrorReclaimed)
        } else if value == -10000 {
            Some(MediaStatus::ErrorUnknown)
        } else if value == -10001 {
            Some(MediaStatus::ErrorMalformed)
        } else if value == -10002 {
            Some(MediaStatus::ErrorUnsupported)
        } else if value == -10003 {
            Some(MediaStatus::ErrorInvalidObject)
        } else if value == -10004 {
            Some(MediaStatus::ErrorInvalidParameter)
        } else if value == -10005 {
            Some(MediaStatus::ErrorInvalidOperation)
        } else if value == -10006 {
            Some(MediaStatus::ErrorEndOfStream)
        } else if value == -10007 {
            Some(MediaStatus::ErrorIO)
        } else if value == -10008 {
            Some(MediaStatus::ErrorWouldBlock)
        } else if value == -20000 {
            Some(MediaStatus::DRMErrorBase)
        } else if value == -20001 {
            Some(MediaStatus::DRMNotProvisioned)
        } else if value == -20002 {
            Some(MediaStatus::DRMResourceBusy)
        } else if value == -20003 {
            Some(MediaStatus::DRMDeviceRevoked)
        } else if value == -20004 {
            Some(MediaStatus::DRMShortBuffer)
        } else if value == -20005 {
            Some(MediaStatus::DRMSessionNotOpened)
        } else if value == -20006 {
            Some(MediaStatus::DRMTamperDetected)
        } else if value == -20007 {
            Some(MediaStatus::DRMVerifyFailed)
        } else if value == -20008 {
            Some(MediaStatus::DRMNeedKey)
        } else if value == -20009 {
            Some(MediaStatus::DRMLicenseExpired)
        } else if value == -30000 {
            Some(MediaStatus::ImgReaderErrorBase)
        } else if value == -30001 {
            Some(MediaStatus::ImgReaderNoBufferAvailable)
        } else if value == -30002 {
            Some(MediaStatus::ImgReaderMaxImagesAcquired)
        } else if value == -30003 {
            Some(MediaStatus::ImgReaderCannotLockImage)
        } else if value == -30004 {
            Some(MediaStatus::ImgReaderCannotUnlockImage)
        } else if value == -30005 {
            Some(MediaStatus::ImgReaderImageNotLocked)
        } else {
            None
        }
    }

    /// What `make_result` returns: a typed error for a recognized non-ok
    /// code, and the value itself otherwise.
    pub open spec fn spec_make_result(value: isize) -> Result<isize, MediaStatus> {
        match MediaStatus::spec_from_code(value as int) {
            Some(status) => if status is Okay {
                Ok(value)
            } else {
                Err(status)
            },
            None => Ok(value),
        }
    }

    /// The numeric code of this status.
    pub fn code(&self) -> (r: isize)
        ensures
            r as int == self.spec_code(),
    {
        match self {
            MediaStatus::Okay => 0,
            MediaStatus::ErrorInsufficientResource => 1100,
            MediaStatus::ErrorReclaimed => 1101,
            MediaStatus::ErrorUnknown => -10000,
            MediaStatus::ErrorMalformed => -10001,
            MediaStatus::ErrorUnsupported => -10002,
            MediaStatus::ErrorInvalidObject => -10003,
            MediaStatus::ErrorInvalidParameter => -10004,
            MediaStatus::ErrorInvalidOperation => -10005,
            MediaStatus::ErrorEndOfStream => -10006,
            MediaStatus::ErrorIO => -10007,
            MediaStatus::ErrorWouldBlock => -10008,
            MediaStatus::DRMErrorBase => -20000,
            MediaStatus::DRMNotProvisioned => -20001,
            MediaStatus::DRMResourceBusy => -20002,
            MediaStatus::DRMDeviceRevoked => -20003,
            MediaStatus::DRMShortBuffer => -20004,
            MediaStatus::DRMSessionNotOpened => -20005,
            MediaStatus::DRMTamperDetected => -20006,
            MediaStatus::DRMVerifyFailed => -20007,
            MediaStatus::DRMNeedKey => -20008,
            MediaStatus::DRMLicenseExpired => -20009,
            MediaStatus::ImgReaderErrorBase => -30000,
            MediaStatus::ImgReaderNoBufferAvailable => -30001,
            MediaStatus::ImgReaderMaxImagesAcquired => -30002,
            MediaStatus::ImgReaderCannotLockImage => -30003,
            MediaStatus::ImgReaderCannotUnlockImage => -30004,
            MediaStatus::ImgReaderImageNotLocked => -30005,
        }
    }

    /// The status a raw numeric code stands for, or `None` for a code
    /// outside the enumerated space.
    pub fn from_code(value: isize) -> (r: Option<MediaStatus>)
        ensures
            r == MediaStatus::spec_from_code(value as int),
    {
        if value == 0 {
            Some(MediaStatus::Okay)
        } else if value == 1100 {
            Some(MediaStatus::ErrorInsufficientResource)
        } else if value == 1101 {
            Some(MediaStatus::ErrorReclaimed)
        } else if value == -10000 {
            Some(MediaStatus::ErrorUnknown)
        } else if value == -10001 {
            Some(MediaStatus::ErrorMalformed)
        } else if value == -10002 {
            Some(MediaStatus::ErrorUnsupported)
        } else if value == -10003 {
            Some(MediaStatus::ErrorInvalidObject)
        } else if value == -10004 {
            Some(MediaStatus::ErrorInvalidParameter)
        } else if value == -10005 {
            Some(MediaStatus::ErrorInvalidOperation)
        } else if value == -10006 {
            Some(MediaStatus::ErrorEndOfStream)
        } else if value == -10007 {
            Some(MediaStatus::ErrorIO)
        } else if value == -10008 {
            Some(MediaStatus::ErrorWouldBlock)
        } else if value == -20000 {
            Some(MediaStatus::DRMErrorBase)
        } else if value == -20001 {
            Some(MediaStatus::DRMNotProvisioned)
        } else if value == -20002 {
            Some(MediaStatus::DRMResourceBusy)
        } else if value == -20003 {
            Some(MediaStatus::DRMDeviceRevoked)
        } else if value == -20004 {
            Some(MediaStatus::DRMShortBuffer)
        } else if value == -20005 {
            Some(MediaStatus::DRMSessionNotOpened)
        } else if value == -20006 {
            Some(MediaStatus::DRMTamperDetected)
        } else if value == -20007 {
            Some(MediaStatus::DRMVerifyFailed)
        } else if value == -20008 {
            Some(MediaStatus::DRMNeedKey)
        } else if value == -20009 {
            Some(MediaStatus::DRMLicenseExpired)
        } else if value == -30000 {
            Some(MediaStatus::ImgReaderErrorBase)
        } else if value == -30001 {
            Some(MediaStatus::ImgReaderNoBufferAvailable)
        } else if value == -30002 {
            Some(MediaStatus::ImgReaderMaxImagesAcquired)
        } else if value == -30003 {
            Some(MediaStatus::ImgReaderCannotLockImage)
        } else if value == -30004 {
            Some(MediaStatus::ImgReaderCannotUnlockImage)
        } else if value == -30005 {
            Some(MediaStatus::ImgReaderImageNotLocked)
        } else {
            None
        }
    }

    /// All statuses, `Ok` first, in the order of the enumerated space.
    pub fn values() -> (r: Vec<MediaStatus>)
        ensures
            r@.len() == 28,
            forall|i: int| 0 <= i < 28 ==> (#[trigger] r@[i]) == MediaStatus::spec_values()[i],
    {
        let mut v: Vec<MediaStatus> = Vec::new();
        v.push(MediaStatus::Okay);
        v.push(MediaStatus::ErrorInsufficientResource);
        v.push(MediaStatus::ErrorReclaimed);
        v.push(MediaStatus::ErrorUnknown);
        v.push(MediaStatus::ErrorMalformed);
        v.push(MediaStatus::ErrorUnsupported);
        v.push(MediaStatus::ErrorInvalidObject);
        v.push(MediaStatus::ErrorInvalidParameter);
        v.push(MediaStatus::ErrorInvalidOperation);
        v.push(MediaStatus::ErrorEndOfStream);
        v.push(MediaStatus::ErrorIO);
        v.push(MediaStatus::ErrorWouldBlock);
        v.push(MediaStatus::DRMErrorBase);
        v.push(MediaStatus::DRMNotProvisioned);
        v.push(MediaStatus::DRMResourceBusy);
        v.push(MediaStatus::DRMDeviceRevoked);
        v.push(MediaStatus::DRMShortBuffer);
        v.push(MediaStatus::DRMSessionNotOpened);
        v.push(MediaStatus::DRMTamperDetected);
        v.push(MediaStatus::DRMVerifyFailed);
        v.push(MediaStatus::DRMNeedKey);
        v.push(MediaStatus::DRMLicenseExpired);
        v.push(MediaStatus::ImgReaderErrorBase);
        v.push(MediaStatus::ImgReaderNoBufferAvailable);
        v.push(MediaStatus::ImgReaderMaxImagesAcquired);
        v.push(MediaStatus::ImgReaderCannotLockImage);
        v.push(MediaStatus::ImgReaderCannotUnlockImage);
        v.push(MediaStatus::ImgReaderImageNotLocked);
        proof {
            assert(v@ =~= MediaStatus::spec_values());
        }
        v
    }

    /// All statuses, `Ok` first.
    pub open spec fn spec_values() -> Seq<MediaStatus> {
        seq![
            MediaStatus::Okay,
            MediaStatus::ErrorInsufficientResource,
            MediaStatus::ErrorReclaimed,
            MediaStatus::ErrorUnknown,
            MediaStatus::ErrorMalformed,
            MediaStatus::ErrorUnsupported,
            MediaStatus::ErrorInvalidObject,
            MediaStatus::ErrorInvalidParameter,
            MediaStatus::ErrorInvalidOperation,
            MediaStatus::ErrorEndOfStream,
            MediaStatus::ErrorIO,
            MediaStatus::ErrorWouldBlock,
            MediaStatus::DRMErrorBase,
            MediaStatus::DRMNotProvisioned,
            MediaStatus::DRMResourceBusy,
            MediaStatus::DRMDeviceRevoked,
            MediaStatus::DRMShortBuffer,
            MediaStatus::DRMSessionNotOpened,
            MediaStatus::DRMTamperDetected,
            MediaStatus::DRMVerifyFailed,
            MediaStatus::DRMNeedKey,
            MediaStatus::DRMLicenseExpired,
            MediaStatus::ImgReaderErrorBase,
            MediaStatus::ImgReaderNoBufferAvailable,
            MediaStatus::ImgReaderMaxImagesAcquired,
            MediaStatus::ImgReaderCannotLockImage,
            MediaStatus::ImgReaderCannotUnlockImage,
            MediaStatus::ImgReaderImageNotLocked,
        ]
    }

    /// Whether this status is the non-error status.
    pub fn is_ok(&self) -> (r: bool)
        ensures
            r == (*self is Okay),
    {
        match self {
            MediaStatus::Okay => true,
            _ => false,
        }
    }

    /// Whether this status is one of the error statuses.
    pub fn is_err(&self) -> (r: bool)
        ensures
            r == !(*self is Okay),
    {
        !self.is_ok()
    }

    /// Translates a raw numeric result: a recognized non-ok code becomes a
    /// typed error, and any other value (the ok code included) passes
    /// through unchanged as a non-error result.
    pub fn make_result(value: isize) -> (r: Result<isize, MediaStatus>)
        ensures
            r == MediaStatus::spec_make_result(value),
    {
        match MediaStatus::from_code(value) {
            Some(status) => {
                if status.is_ok() {
                    Ok(value)
                } else {
                    Err(status)
                }
            },
            None => Ok(value),
        }
    }
}

} // verus!
