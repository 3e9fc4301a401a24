//! The guest-visible error-code space: a contiguous range of named codes
//! from `SUCCESS = 0` down to `NOSERVICE = -88`, plus a sentinel for any
//! raw value outside that range. These are ordinary successful return
//! values the guest branches on, not host-level failures.

use vstd::prelude::*;

use crate::base::WIPICWord;
use crate::codec::{i32_as_word, word_as_i32};

verus! {

/// The named guest-visible outcome codes. Each corresponds to one wire
/// value in `[-88, 0]`; `UnknownValue` stands for every other raw value.
#[derive(Clone, Copy, PartialEq, Eq, Structural, Debug)]
#[allow(non_camel_case_types)]
pub enum WIPICErrorCode {
    SUCCESS,
    ERROR,
    BADFD,
    BADFILENAME,
    BADSEEKPOS,
    EXIST,
    BADFORMAT,
    INPROGRESS,
    INUSE,
    INVALID,
    ISCONN,
    LONGNAME,
    NOENT,
    NOSPACE,
    NOTCONN,
    NOTEMPTY,
    NOTSUP,
    NOMEMORY,
    SHORTBUF,
    WOULDBLOCK,
    TIMEOUT,
    DATABIG,
    BADRECID,
    EOF,
    ACCESS,
    INVALIDHANDLE,
    INVALIDSYSOP,
    NOTCHANGE,
    NOTEXIST,
    UNLOCK,
    LOCK,
    HASNOUID,
    NOLIMIT,
    ALREADYEXISTEVENT,
    PLTEXIT,
    INSUFSPACE,
    ACCESSDENY,
    DUPNAME,
    INVALIDSTATUS,
    NORES,
    PLOCK,
    GLOCK,
    INCORRECTPASSWORD,
    INVALIDRESGROUP,
    INVALIDTERMRES,
    NOTFITSIZE,
    NOTSUPPORTGLOCK,
    NOTSUPPORTLOCK,
    NOTSUPPORTCBELL,
    INVALIDFORMAT,
    TOOMANYPARAM,
    NOTSCALE,
    NETCLOSE,
    SOCKETCLOSE,
    NOFRAME,
    NOTSUPPORTPLOCK,
    NOTACTIVE,
    NETMODECHANGE,
    INVALIDSOURCE,
    NOTRESIZE,
    DEVCLOSE,
    OEMERROR,
    NOTSUPPORTTYPE,
    NOTFOUND,
    GETPROV,
    INVALIDDATA,
    MAXCOUNT,
    NODEVICE,
    INUSE_BY_MSASSITED,
    INUSE_BY_MSBASED,
    INUSE_BY_CELLBASED,
    NODELETE,
    NOTSUPPORTMETHOD,
    EXPIREDDATA,
    AUTHENTICATE,
    NETMODEREADY,
    UNCOMPRESS,
    BAD_DCF_INFORM,
    DATE_EXPIRED,
    DEVICE_NOT_REGISTERED,
    INVALID_OWNERSHIP,
    BAD_DOMAIN,
    INIT,
    CHANGED,
    NOTCHANGED,
    INUSE_BY_OTHER_SVCID,
    NETDORMANT,
    PREEMPTED,
    NOSERVICE,
    UnknownValue,
}

/// The wire value of an error code.
pub open spec fn code_value(c: WIPICErrorCode) -> i32 {
    match c {
        WIPICErrorCode::SUCCESS => 0i32,
        WIPICErrorCode::ERROR => -1i32,
        WIPICErrorCode::BADFD => -2i32,
        WIPICErrorCode::BADFILENAME => -3i32,
        WIPICErrorCode::BADSEEKPOS => -4i32,
        WIPICErrorCode::EXIST => -5i32,
        WIPICErrorCode::BADFORMAT => -6i32,
        WIPICErrorCode::INPROGRESS => -7i32,
        WIPICErrorCode::INUSE => -8i32,
        WIPICErrorCode::INVALID => -9i32,
        WIPICErrorCode::ISCONN => -10i32,
        WIPICErrorCode::LONGNAME => -11i32,
        WIPICErrorCode::NOENT => -12i32,
        WIPICErrorCode::NOSPACE => -13i32,
        WIPICErrorCode::NOTCONN => -14i32,
        WIPICErrorCode::NOTEMPTY => -15i32,
        WIPICErrorCode::NOTSUP => -16i32,
        WIPICErrorCode::NOMEMORY => -17i32,
        WIPICErrorCode::SHORTBUF => -18i32,
        WIPICErrorCode::WOULDBLOCK => -19i32,
        WIPICErrorCode::TIMEOUT => -20i32,
        WIPICErrorCode::DATABIG => -21i32,
        WIPICErrorCode::BADRECID => -22i32,
        WIPICErrorCode::EOF => -23i32,
        WIPICErrorCode::ACCESS => -24i32,
        WIPICErrorCode::INVALIDHANDLE => -25i32,
        WIPICErrorCode::INVALIDSYSOP => -26i32,
        WIPICErrorCode::NOTCHANGE => -27i32,
        WIPICErrorCode::NOTEXIST => -28i32,
        WIPICErrorCode::UNLOCK => -29i32,
        WIPICErrorCode::LOCK => -30i32,
        WIPICErrorCode::HASNOUID => -31i32,
        WIPICErrorCode::NOLIMIT => -32i32,
        WIPICErrorCode::ALREADYEXISTEVENT => -33i32,
        WIPICErrorCode::PLTEXIT => -34i32,
        WIPICErrorCode::INSUFSPACE => -35i32,
        WIPICErrorCode::ACCESSDENY => -36i32,
        WIPICErrorCode::DUPNAME => -37i32,
        WIPICErrorCode::INVALIDSTATUS => -38i32,
        WIPICErrorCode::NORES => -39i32,
        WIPICErrorCode::PLOCK => -40i32,
        WIPICErrorCode::GLOCK => -41i32,
        WIPICErrorCode::INCORRECTPASSWORD => -42i32,
        WIPICErrorCode::INVALIDRESGROUP => -43i32,
        WIPICErrorCode::INVALIDTERMRES => -44i32,
        WIPICErrorCode::NOTFITSIZE => -45i32,
        WIPICErrorCode::NOTSUPPORTGLOCK => -46i32,
        WIPICErrorCode::NOTSUPPORTLOCK => -47i32,
        WIPICErrorCode::NOTSUPPORTCBELL => -48i32,
        WIPICErrorCode::INVALIDFORMAT => -49i32,
        WIPICErrorCode::TOOMANYPARAM => -50i32,
        WIPICErrorCode::NOTSCALE => -51i32,
        WIPICErrorCode::NETCLOSE => -52i32,
        WIPICErrorCode::SOCKETCLOSE => -53i32,
        WIPICErrorCode::NOFRAME => -54i32,
        WIPICErrorCode::NOTSUPPORTPLOCK => -55i32,
        WIPICErrorCode::NOTACTIVE => -56i32,
        WIPICErrorCode::NETMODECHANGE => -57i32,
        WIPICErrorCode::INVALIDSOURCE => -58i32,
        WIPICErrorCode::NOTRESIZE => -59i32,
        WIPICErrorCode::DEVCLOSE => -60i32,
        WIPICErrorCode::OEMERROR => -61i32,
        WIPICErrorCode::NOTSUPPORTTYPE => -62i32,
        WIPICErrorCode::NOTFOUND => -63i32,
        WIPICErrorCode::GETPROV => -64i32,
        WIPICErrorCode::INVALIDDATA => -65i32,
        WIPICErrorCode::MAXCOUNT => -66i32,
        WIPICErrorCode::NODEVICE => -67i32,
        WIPICErrorCode::INUSE_BY_MSASSITED => -68i32,
        WIPICErrorCode::INUSE_BY_MSBASED => -69i32,
        WIPICErrorCode::INUSE_BY_CELLBASED => -70i32,
        WIPICErrorCode::NODELETE => -71i32,
        WIPICErrorCode::NOTSUPPORTMETHOD => -72i32,
        WIPICErrorCode::EXPIREDDATA => -73i32,
        WIPICErrorCode::AUTHENTICATE => -74i32,
        WIPICErrorCode::NETMODEREADY => -75i32,
        WIPICErrorCode::UNCOMPRESS => -76i32,
        WIPICErrorCode::BAD_DCF_INFORM => -77i32,
        WIPICErrorCode::DATE_EXPIRED => -78i32,
        WIPICErrorCode::DEVICE_NOT_REGISTERED => -79i32,
        WIPICErrorCode::INVALID_OWNERSHIP => -80i32,
        WIPICErrorCode::BAD_DOMAIN => -81i32,
        WIPICErrorCode::INIT => -82i32,
        WIPICErrorCode::CHANGED => -83i32,
        WIPICErrorCode::NOTCHANGED => -84i32,
        WIPICErrorCode::INUSE_BY_OTHER_SVCID => -85i32,
        WIPICErrorCode::NETDORMANT => -86i32,
        WIPICErrorCode::PREEMPTED => -87i32,
        WIPICErrorCode::NOSERVICE => -88i32,
        WIPICErrorCode::UnknownValue => i32::MIN,
    }
}

/// The error code a raw wire value denotes: the named code for a value in
/// `[-88, 0]`, the sentinel for every other value.
pub open spec fn code_of_value(v: i32) -> WIPICErrorCode {
    if v == 0 {
        WIPICErrorCode::SUCCESS
    } else if v == -1 {
        WIPICErrorCode::ERROR
    } else if v == -2 {
        WIPICErrorCode::BADFD
    } else if v == -3 {
        WIPICErrorCode::BADFILENAME
    } else if v == -4 {
        WIPICErrorCode::BADSEEKPOS
    } else if v == -5 {
        WIPICErrorCode::EXIST
    } else if v == -6 {
        WIPICErrorCode::BADFORMAT
    } else if v == -7 {
        WIPICErrorCode::INPROGRESS
    } else if v == -8 {
        WIPICErrorCode::INUSE
    } else if v == -9 {
        WIPICErrorCode::INVALID
    } else if v == -10 {
        WIPICErrorCode::ISCONN
    } else if v == -11 {
        WIPICErrorCode::LONGNAME
    } else if v == -12 {
        WIPICErrorCode::NOENT
    } else if v == -13 {
        WIPICErrorCode::NOSPACE
    } else if v == -14 {
        WIPICErrorCode::NOTCONN
    } else if v == -15 {
        WIPICErrorCode::NOTEMPTY
    } else if v == -16 {
        WIPICErrorCode::NOTSUP
    } else if v == -17 {
        WIPICErrorCode::NOMEMORY
    } else if v == -18 {
        WIPICErrorCode::SHORTBUF
    } else if v == -19 {
        WIPICErrorCode::WOULDBLOCK
    } else if v == -20 {
        WIPICErrorCode::TIMEOUT
    } else if v == -21 {
        WIPICErrorCode::DATABIG
    } else if v == -22 {
        WIPICErrorCode::BADRECID
    } else if v == -23 {
        WIPICErrorCode::EOF
    } else if v == -24 {
        WIPICErrorCode::ACCESS
    } else if v == -25 {
        WIPICErrorCode::INVALIDHANDLE
    } else if v == -26 {
        WIPICErrorCode::INVALIDSYSOP
    } else if v == -27 {
        WIPICErrorCode::NOTCHANGE
    } else if v == -28 {
        WIPICErrorCode::NOTEXIST
    } else if v == -29 {
        WIPICErrorCode::UNLOCK
    } else if v == -30 {
        WIPICErrorCode::LOCK
    } else if v == -31 {
        WIPICErrorCode::HASNOUID
    } else if v == -32 {
        WIPICErrorCode::NOLIMIT
    } else if v == -33 {
        WIPICErrorCode::ALREADYEXISTEVENT
    } else if v == -34 {
        WIPICErrorCode::PLTEXIT
    } else if v == -35 {
        WIPICErrorCode::INSUFSPACE
    } else if v == -36 {
        WIPICErrorCode::ACCESSDENY
    } else if v == -37 {
        WIPICErrorCode::DUPNAME
    } else if v == -38 {
        WIPICErrorCode::INVALIDSTATUS
    } else if v == -39 {
        WIPICErrorCode::NORES
    } else if v == -40 {
        WIPICErrorCode::PLOCK
    } else if v == -41 {
        WIPICErrorCode::GLOCK
    } else if v == -42 {
        WIPICErrorCode::INCORRECTPASSWORD
    } else if v == -43 {
        WIPICErrorCode::INVALIDRESGROUP
    } else if v == -44 {
        WIPICErrorCode::INVALIDTERMRES
    } else if v == -45 {
        WIPICErrorCode::NOTFITSIZE
    } else if v == -46 {
        WIPICErrorCode::NOTSUPPORTGLOCK
    } else if v == -47 {
        WIPICErrorCode::NOTSUPPORTLOCK
    } else if v == -48 {
        WIPICErrorCode::NOTSUPPORTCBELL
    } else if v == -49 {
        WIPICErrorCode::INVALIDFORMAT
    } else if v == -50 {
        WIPICErrorCode::TOOMANYPARAM
    } else if v == -51 {
        WIPICErrorCode::NOTSCALE
    } else if v == -52 {
        WIPICErrorCode::NETCLOSE
    } else if v == -53 {
        WIPICErrorCode::SOCKETCLOSE
    } else if v == -54 {
        WIPICErrorCode::NOFRAME
    } else if v == -55 {
        WIPICErrorCode::NOTSUPPORTPLOCK
    } else if v == -56 {
        WIPICErrorCode::NOTACTIVE
    } else if v == -57 {
        WIPICErrorCode::NETMODECHANGE
    } else if v == -58 {
        WIPICErrorCode::INVALIDSOURCE
    } else if v == -59 {
        WIPICErrorCode::NOTRESIZE
    } else if v == -60 {
        WIPICErrorCode::DEVCLOSE
    } else if v == -61 {
        WIPICErrorCode::OEMERROR
    } else if v == -62 {
        WIPICErrorCode::NOTSUPPORTTYPE
    } else if v == -63 {
        WIPICErrorCode::NOTFOUND
    } else if v == -64 {
        WIPICErrorCode::GETPROV
    } else if v == -65 {
        WIPICErrorCode::INVALIDDATA
    } else if v == -66 {
        WIPICErrorCode::MAXCOUNT
    } else if v == -67 {
        WIPICErrorCode::NODEVICE
    } else if v == -68 {
        WIPICErrorCode::INUSE_BY_MSASSITED
    } else if v == -69 {
        WIPICErrorCode::INUSE_BY_MSBASED
    } else if v == -70 {
        WIPICErrorCode::INUSE_BY_CELLBASED
    } else if v == -71 {
        WIPICErrorCode::NODELETE
    } else if v == -72 {
        WIPICErrorCode::NOTSUPPORTMETHOD
    } else if v == -73 {
        WIPICErrorCode::EXPIREDDATA
    } else if v == -74 {
        WIPICErrorCode::AUTHENTICATE
    } else if v == -75 {
        WIPICErrorCode::NETMODEREADY
    } else if v == -76 {
        WIPICErrorCode::UNCOMPRESS
    } else if v == -77 {
        WIPICErrorCode::BAD_DCF_INFORM
    } else if v == -78 {
        WIPICErrorCode::DATE_EXPIRED
    } else if v == -79 {
        WIPICErrorCode::DEVICE_NOT_REGISTERED
    } else if v == -80 {
        WIPICErrorCode::INVALID_OWNERSHIP
    } else if v == -81 {
        WIPICErrorCode::BAD_DOMAIN
    } else if v == -82 {
        WIPICErrorCode::INIT
    } else if v == -83 {
        WIPICErrorCode::CHANGED
    } else if v == -84 {
        WIPICErrorCode::NOTCHANGED
    } else if v == -85 {
        WIPICErrorCode::INUSE_BY_OTHER_SVCID
    } else if v == -86 {
        WIPICErrorCode::NETDORMANT
    } else if v == -87 {
        WIPICErrorCode::PREEMPTED
    } else if v == -88 {
        WIPICErrorCode::NOSERVICE
    } else {
        WIPICErrorCode::UnknownValue
    }
}

impl From<i32> for WIPICErrorCode {
    /// Maps a raw wire value to its error code.
    fn from(value: i32) -> (r: WIPICErrorCode) {
        match value {
            0 => WIPICErrorCode::SUCCESS,
            -1 => WIPICErrorCode::ERROR,
            -2 => WIPICErrorCode::BADFD,
            -3 => WIPICErrorCode::BADFILENAME,
            -4 => WIPICErrorCode::BADSEEKPOS,
            -5 => WIPICErrorCode::EXIST,
            -6 => WIPICErrorCode::BADFORMAT,
            -7 => WIPICErrorCode::INPROGRESS,
            -8 => WIPICErrorCode::INUSE,
            -9 => WIPICErrorCode::INVALID,
            -10 => WIPICErrorCode::ISCONN,
            -11 => WIPICErrorCode::LONGNAME,
            -12 => WIPICErrorCode::NOENT,
            -13 => WIPICErrorCode::NOSPACE,
            -14 => WIPICErrorCode::NOTCONN,
            -15 => WIPICErrorCode::NOTEMPTY,
            -16 => WIPICErrorCode::NOTSUP,
            -17 => WIPICErrorCode::NOMEMORY,
            -18 => WIPICErrorCode::SHORTBUF,
            -19 => WIPICErrorCode::WOULDBLOCK,
            -20 => WIPICErrorCode::TIMEOUT,
            -21 => WIPICErrorCode::DATABIG,
            -22 => WIPICErrorCode::BADRECID,
            -23 => WIPICErrorCode::EOF,
            -24 => WIPICErrorCode::ACCESS,
            -25 => WIPICErrorCode::INVALIDHANDLE,
            -26 => WIPICErrorCode::INVALIDSYSOP,
            -27 => WIPICErrorCode::NOTCHANGE,
            -28 => WIPICErrorCode::NOTEXIST,
            -29 => WIPICErrorCode::UNLOCK,
            -30 => WIPICErrorCode::LOCK,
            -31 => WIPICErrorCode::HASNOUID,
            -32 => WIPICErrorCode::NOLIMIT,
            -33 => WIPICErrorCode::ALREADYEXISTEVENT,
            -34 => WIPICErrorCode::PLTEXIT,
            -35 => WIPICErrorCode::INSUFSPACE,
            -36 => WIPICErrorCode::ACCESSDENY,
            -37 => WIPICErrorCode::DUPNAME,
            -38 => WIPICErrorCode::INVALIDSTATUS,
            -39 => WIPICErrorCode::NORES,
            -40 => WIPICErrorCode::PLOCK,
            -41 => WIPICErrorCode::GLOCK,
            -42 => WIPICErrorCode::INCORRECTPASSWORD,
            -43 => WIPICErrorCode::INVALIDRESGROUP,
            -44 => WIPICErrorCode::INVALIDTERMRES,
            -45 => WIPICErrorCode::NOTFITSIZE,
            -46 => WIPICErrorCode::NOTSUPPORTGLOCK,
            -47 => WIPICErrorCode::NOTSUPPORTLOCK,
            -48 => WIPICErrorCode::NOTSUPPORTCBELL,
            -49 => WIPICErrorCode::INVALIDFORMAT,
            -50 => WIPICErrorCode::TOOMANYPARAM,
            -51 => WIPICErrorCode::NOTSCALE,
            -52 => WIPICErrorCode::NETCLOSE,
            -53 => WIPICErrorCode::SOCKETCLOSE,
            -54 => WIPICErrorCode::NOFRAME,
            -55 => WIPICErrorCode::NOTSUPPORTPLOCK,
            -56 => WIPICErrorCode::NOTACTIVE,
            -57 => WIPICErrorCode::NETMODECHANGE,
            -58 => WIPICErrorCode::INVALIDSOURCE,
            -59 => WIPICErrorCode::NOTRESIZE,
            -60 => WIPICErrorCode::DEVCLOSE,
            -61 => WIPICErrorCode::OEMERROR,
            -62 => WIPICErrorCode::NOTSUPPORTTYPE,
            -63 => WIPICErrorCode::NOTFOUND,
            -64 => WIPICErrorCode::GETPROV,
            -65 => WIPICErrorCode::INVALIDDATA,
            -66 => WIPICErrorCode::MAXCOUNT,
            -67 => WIPICErrorCode::NODEVICE,
            -68 => WIPICErrorCode::INUSE_BY_MSASSITED,
            -69 => WIPICErrorCode::INUSE_BY_MSBASED,
            -70 => WIPICErrorCode::INUSE_BY_CELLBASED,
            -71 => WIPICErrorCode::NODELETE,
            -72 => WIPICErrorCode::NOTSUPPORTMETHOD,
            -73 => WIPICErrorCode::EXPIREDDATA,
            -74 => WIPICErrorCode::AUTHENTICATE,
            -75 => WIPICErrorCode::NETMODEREADY,
            -76 => WIPICErrorCode::UNCOMPRESS,
            -77 => WIPICErrorCode::BAD_DCF_INFORM,
            -78 => WIPICErrorCode::DATE_EXPIRED,
            -79 => WIPICErrorCode::DEVICE_NOT_REGISTERED,
            -80 => WIPICErrorCode::INVALID_OWNERSHIP,
            -81 => WIPICErrorCode::BAD_DOMAIN,
            -82 => WIPICErrorCode::INIT,
            -83 => WIPICErrorCode::CHANGED,
            -84 => WIPICErrorCode::NOTCHANGED,
            -85 => WIPICErrorCode::INUSE_BY_OTHER_SVCID,
            -86 => WIPICErrorCode::NETDORMANT,
            -87 => WIPICErrorCode::PREEMPTED,
            -88 => WIPICErrorCode::NOSERVICE,
            _ => WIPICErrorCode::UnknownValue,
        }
    }
}

impl vstd::std_specs::convert::FromSpecImpl<i32> for WIPICErrorCode {
    open spec fn obeys_from_spec() -> bool {
        true
    }

    open spec fn from_spec(value: i32) -> WIPICErrorCode {
        code_of_value(value)
    }
}

impl From<WIPICErrorCode> for i32 {
    /// Maps an error code to its raw wire value.
    fn from(value: WIPICErrorCode) -> (r: i32) {
        match value {
            WIPICErrorCode::SUCCESS => 0,
            WIPICErrorCode::ERROR => -1,
            WIPICErrorCode::BADFD => -2,
            WIPICErrorCode::BADFILENAME => -3,
            WIPICErrorCode::BADSEEKPOS => -4,
            WIPICErrorCode::EXIST => -5,
            WIPICErrorCode::BADFORMAT => -6,
            WIPICErrorCode::INPROGRESS => -7,
            WIPICErrorCode::INUSE => -8,
            WIPICErrorCode::INVALID => -9,
            WIPICErrorCode::ISCONN => -10,
            WIPICErrorCode::LONGNAME => -11,
            WIPICErrorCode::NOENT => -12,
            WIPICErrorCode::NOSPACE => -13,
            WIPICErrorCode::NOTCONN => -14,
            WIPICErrorCode::NOTEMPTY => -15,
            WIPICErrorCode::NOTSUP => -16,
            WIPICErrorCode::NOMEMORY => -17,
            WIPICErrorCode::SHORTBUF => -18,
            WIPICErrorCode::WOULDBLOCK => -19,
            WIPICErrorCode::TIMEOUT => -20,
            WIPICErrorCode::DATABIG => -21,
            WIPICErrorCode::BADRECID => -22,
            WIPICErrorCode::EOF => -23,
            WIPICErrorCode::ACCESS => -24,
            WIPICErrorCode::INVALIDHANDLE => -25,
            WIPICErrorCode::INVALIDSYSOP => -26,
            WIPICErrorCode::NOTCHANGE => -27,
            WIPICErrorCode::NOTEXIST => -28,
            WIPICErrorCode::UNLOCK => -29,
            WIPICErrorCode::LOCK => -30,
            WIPICErrorCode::HASNOUID => -31,
            WIPICErrorCode::NOLIMIT => -32,
            WIPICErrorCode::ALREADYEXISTEVENT => -33,
            WIPICErrorCode::PLTEXIT => -34,
            WIPICErrorCode::INSUFSPACE => -35,
            WIPICErrorCode::ACCESSDENY => -36,
            WIPICErrorCode::DUPNAME => -37,
            WIPICErrorCode::INVALIDSTATUS => -38,
            WIPICErrorCode::NORES => -39,
            WIPICErrorCode::PLOCK => -40,
            WIPICErrorCode::GLOCK => -41,
            WIPICErrorCode::INCORRECTPASSWORD => -42,
            WIPICErrorCode::INVALIDRESGROUP => -43,
            WIPICErrorCode::INVALIDTERMRES => -44,
            WIPICErrorCode::NOTFITSIZE => -45,
            WIPICErrorCode::NOTSUPPORTGLOCK => -46,
            WIPICErrorCode::NOTSUPPORTLOCK => -47,
            WIPICErrorCode::NOTSUPPORTCBELL => -48,
            WIPICErrorCode::INVALIDFORMAT => -49,
            WIPICErrorCode::TOOMANYPARAM => -50,
            WIPICErrorCode::NOTSCALE => -51,
            WIPICErrorCode::NETCLOSE => -52,
            WIPICErrorCode::SOCKETCLOSE => -53,
            WIPICErrorCode::NOFRAME => -54,
            WIPICErrorCode::NOTSUPPORTPLOCK => -55,
            WIPICErrorCode::NOTACTIVE => -56,
            WIPICErrorCode::NETMODECHANGE => -57,
            WIPICErrorCode::INVALIDSOURCE => -58,
            WIPICErrorCode::NOTRESIZE => -59,
            WIPICErrorCode::DEVCLOSE => -60,
            WIPICErrorCode::OEMERROR => -61,
            WIPICErrorCode::NOTSUPPORTTYPE => -62,
            WIPICErrorCode::NOTFOUND => -63,
            WIPICErrorCode::GETPROV => -64,
            WIPICErrorCode::INVALIDDATA => -65,
            WIPICErrorCode::MAXCOUNT => -66,
            WIPICErrorCode::NODEVICE => -67,
            WIPICErrorCode::INUSE_BY_MSASSITED => -68,
            WIPICErrorCode::INUSE_BY_MSBASED => -69,
            WIPICErrorCode::INUSE_BY_CELLBASED => -70,
            WIPICErrorCode::NODELETE => -71,
            WIPICErrorCode::NOTSUPPORTMETHOD => -72,
            WIPICErrorCode::EXPIREDDATA => -73,
            WIPICErrorCode::AUTHENTICATE => -74,
            WIPICErrorCode::NETMODEREADY => -75,
            WIPICErrorCode::UNCOMPRESS => -76,
            WIPICErrorCode::BAD_DCF_INFORM => -77,
            WIPICErrorCode::DATE_EXPIRED => -78,
            WIPICErrorCode::DEVICE_NOT_REGISTERED => -79,
            WIPICErrorCode::INVALID_OWNERSHIP => -80,
            WIPICErrorCode::BAD_DOMAIN => -81,
            WIPICErrorCode::INIT => -82,
            WIPICErrorCode::CHANGED => -83,
            WIPICErrorCode::NOTCHANGED => -84,
            WIPICErrorCode::INUSE_BY_OTHER_SVCID => -85,
            WIPICErrorCode::NETDORMANT => -86,
            WIPICErrorCode::PREEMPTED => -87,
            WIPICErrorCode::NOSERVICE => -88,
            WIPICErrorCode::UnknownValue => i32::MIN,
        }
    }
}

impl vstd::std_specs::convert::FromSpecImpl<WIPICErrorCode> for i32 {
    open spec fn obeys_from_spec() -> bool {
        true
    }

    open spec fn from_spec(value: WIPICErrorCode) -> i32 {
        code_value(value)
    }
}

/// The error code whose bit pattern a word carries.
pub open spec fn error_code_of_word(w: WIPICWord) -> WIPICErrorCode {
    code_of_value(word_as_i32(w))
}

/// The word carrying the bit pattern of an error code.
pub open spec fn word_of_error_code(c: WIPICErrorCode) -> WIPICWord {
    i32_as_word(code_value(c))
}

impl WIPICErrorCode {
    /// Decodes an argument word into an error code, reinterpreting the bit
    /// pattern as a signed value.
    pub fn to_rust(raw: WIPICWord) -> (r: WIPICErrorCode)
        ensures
            r == error_code_of_word(raw),
    {
        WIPICErrorCode::from(raw as i32)
    }

    /// Encodes an error code as a return word, reinterpreting the signed
    /// wire value's bit pattern.
    pub fn from_rust(code: WIPICErrorCode) -> (r: WIPICWord)
        ensures
            r == word_of_error_code(code),
    {
        i32::from(code) as u32
    }
}

/// Every wire value in `[-88, 0]` maps to a named code and back unchanged;
/// every value outside that range maps to the sentinel only.
pub proof fn lemma_error_value_round_trip(v: i32)
    ensures
        -88 <= v <= 0 ==> code_value(code_of_value(v)) == v,
        !(-88 <= v <= 0) ==> code_of_value(v) == WIPICErrorCode::UnknownValue,
{
}

/// Decoding any error code from its own encoding gives that code back:
/// the sentinel encodes to an out-of-range value, so it decodes to itself.
pub proof fn lemma_error_code_round_trip(c: WIPICErrorCode)
    ensures
        error_code_of_word(word_of_error_code(c)) == c,
{
    let v = code_value(c);
    assert(word_as_i32(i32_as_word(v)) == v) by {
        crate::codec::lemma_i32_word_round_trip(v);
    }
}

/// Any word whose signed reinterpretation lies in `[-88, 0]` survives a
/// decode/encode round trip through the error codec unchanged.
pub proof fn lemma_error_word_round_trip(w: WIPICWord)
    requires
        -88 <= word_as_i32(w) <= 0,
    ensures
        word_of_error_code(error_code_of_word(w)) == w,
{
    lemma_error_value_round_trip(word_as_i32(w));
    crate::codec::lemma_word_i32_round_trip(w);
}

} // verus!

