//! The errors that the stack reports.

use vstd::prelude::*;
use vstd::std_specs::convert::FromSpecImpl;

verus! {

/// The Matter error codes.
#[derive(Debug, Clone, Copy, PartialEq, Eq, Structural)]
pub enum ErrorCode {
    AttributeNotFound,
    AttributeIsCustom,
    BufferTooSmall,
    ClusterNotFound,
    CommandNotFound,
    Duplicate,
    NodeNotFound,
    EndpointNotFound,
    EventNotFound,
    InvalidAction,
    InvalidCommand,
    FailSafeRequired,
    NeedsTimedInteraction,
    ConstraintError,
    DynamicConstraintError,
    InvalidDataType,
    UnsupportedAccess,
    ResourceExhausted,
    Busy,
    DataVersionMismatch,
    BtpError,
    MdnsError,
    NoCommand,
    NoEndpoint,
    NoExchange,
    NoFabricId,
    NoHandler,
    NoNetworkInterface,
    DBusError,
    NoNodeId,
    NoMemory,
    NoSession,
    NoSpace,
    NoSpaceExchanges,
    NoSpaceSessions,
    TxTimeout,
    RxTimeout,
    NoTagFound,
    NotFound,
    PacketPoolExhaust,
    StdIoError,
    SysTimeFail,
    Invalid,
    InvalidAAD,
    InvalidData,
    InvalidKeyLength,
    InvalidOpcode,
    InvalidProto,
    InvalidPeerAddr,
    InvalidAuthKey,
    InvalidSignature,
    InvalidState,
    InvalidTime,
    InvalidArgument,
    RwLock,
    TLVNotFound,
    TLVTypeMismatch,
    TruncatedPacket,
    Utf8Fail,
    GennCommInvalidAuthentication,
    NocInvalidNoc,
    NocInvalidPublicKey,
    NocMissingCsr,
    NocFabricTableFull,
    NocFabricConflict,
    NocLabelConflict,
    NocInvalidFabricIndex,
    NocInvalidAdminSubject,
    Failure,
    CdInvalidFormat,
    CdInvalidSignature,
    CdSigningKeyNotFound,
    CdInvalidVendorId,
    CdInvalidProductId,
    CdInvalidPaa,
}

impl ErrorCode {
    /// The name of the code.
    pub open spec fn spec_name(self) -> Seq<char> {
        match self {
            ErrorCode::AttributeNotFound => "AttributeNotFound"@,
            ErrorCode::AttributeIsCustom => "AttributeIsCustom"@,
            ErrorCode::BufferTooSmall => "BufferTooSmall"@,
            ErrorCode::ClusterNotFound => "ClusterNotFound"@,
            ErrorCode::CommandNotFound => "CommandNotFound"@,
            ErrorCode::Duplicate => "Duplicate"@,
            ErrorCode::NodeNotFound => "NodeNotFound"@,
            ErrorCode::EndpointNotFound => "EndpointNotFound"@,
            ErrorCode::EventNotFound => "EventNotFound"@,
            ErrorCode::InvalidAction => "InvalidAction"@,
            ErrorCode::InvalidCommand => "InvalidCommand"@,
            ErrorCode::FailSafeRequired => "FailSafeRequired"@,
            ErrorCode::NeedsTimedInteraction => "NeedsTimedInteraction"@,
            ErrorCode::ConstraintError => "ConstraintError"@,
            ErrorCode::DynamicConstraintError => "DynamicConstraintError"@,
            ErrorCode::InvalidDataType => "InvalidDataType"@,
            ErrorCode::UnsupportedAccess => "UnsupportedAccess"@,
            ErrorCode::ResourceExhausted => "ResourceExhausted"@,
            ErrorCode::Busy => "Busy"@,
            ErrorCode::DataVersionMismatch => "DataVersionMismatch"@,
            ErrorCode::BtpError => "BtpError"@,
            ErrorCode::MdnsError => "MdnsError"@,
            ErrorCode::NoCommand => "NoCommand"@,
            ErrorCode::NoEndpoint => "NoEndpoint"@,
            ErrorCode::NoExchange => "NoExchange"@,
            ErrorCode::NoFabricId => "NoFabricId"@,
            ErrorCode::NoHandler => "NoHandler"@,
            ErrorCode::NoNetworkInterface => "NoNetworkInterface"@,
            ErrorCode::DBusError => "DBusError"@,
            ErrorCode::NoNodeId => "NoNodeId"@,
            ErrorCode::NoMemory => "NoMemory"@,
            ErrorCode::NoSession => "NoSession"@,
            ErrorCode::NoSpace => "NoSpace"@,
            ErrorCode::NoSpaceExchanges => "NoSpaceExchanges"@,
            ErrorCode::NoSpaceSessions => "NoSpaceSessions"@,
            ErrorCode::TxTimeout => "TxTimeout"@,
            ErrorCode::RxTimeout => "RxTimeout"@,
            ErrorCode::NoTagFound => "NoTagFound"@,
            ErrorCode::NotFound => "NotFound"@,
            ErrorCode::PacketPoolExhaust => "PacketPoolExhaust"@,
            ErrorCode::StdIoError => "StdIoError"@,
            ErrorCode::SysTimeFail => "SysTimeFail"@,
            ErrorCode::Invalid => "Invalid"@,
            ErrorCode::InvalidAAD => "InvalidAAD"@,
            ErrorCode::InvalidData => "InvalidData"@,
            ErrorCode::InvalidKeyLength => "InvalidKeyLength"@,
            ErrorCode::InvalidOpcode => "InvalidOpcode"@,
            ErrorCode::InvalidProto => "InvalidProto"@,
            ErrorCode::InvalidPeerAddr => "InvalidPeerAddr"@,
            ErrorCode::InvalidAuthKey => "InvalidAuthKey"@,
            ErrorCode::InvalidSignature => "InvalidSignature"@,
            ErrorCode::InvalidState => "InvalidState"@,
            ErrorCode::InvalidTime => "InvalidTime"@,
            ErrorCode::InvalidArgument => "InvalidArgument"@,
            ErrorCode::RwLock => "RwLock"@,
            ErrorCode::TLVNotFound => "TLVNotFound"@,
            ErrorCode::TLVTypeMismatch => "TLVTypeMismatch"@,
            ErrorCode::TruncatedPacket => "TruncatedPacket"@,
            ErrorCode::Utf8Fail => "Utf8Fail"@,
            ErrorCode::GennCommInvalidAuthentication => "GennCommInvalidAuthentication"@,
            ErrorCode::NocInvalidNoc => "NocInvalidNoc"@,
            ErrorCode::NocInvalidPublicKey => "NocInvalidPublicKey"@,
            ErrorCode::NocMissingCsr => "NocMissingCsr"@,
            ErrorCode::NocFabricTableFull => "NocFabricTableFull"@,
            ErrorCode::NocFabricConflict => "NocFabricConflict"@,
            ErrorCode::NocLabelConflict => "NocLabelConflict"@,
            ErrorCode::NocInvalidFabricIndex => "NocInvalidFabricIndex"@,
            ErrorCode::NocInvalidAdminSubject => "NocInvalidAdminSubject"@,
            ErrorCode::Failure => "Failure"@,
            ErrorCode::CdInvalidFormat => "CdInvalidFormat"@,
            ErrorCode::CdInvalidSignature => "CdInvalidSignature"@,
            ErrorCode::CdSigningKeyNotFound => "CdSigningKeyNotFound"@,
            ErrorCode::CdInvalidVendorId => "CdInvalidVendorId"@,
            ErrorCode::CdInvalidProductId => "CdInvalidProductId"@,
            ErrorCode::CdInvalidPaa => "CdInvalidPaa"@,
        }
    }

    /// The name of the code.
    pub fn name(self) -> (name: &'static str)
        ensures
            name@ == self.spec_name(),
    {
        match self {
            ErrorCode::AttributeNotFound => "AttributeNotFound",
            ErrorCode::AttributeIsCustom => "AttributeIsCustom",
            ErrorCode::BufferTooSmall => "BufferTooSmall",
            ErrorCode::ClusterNotFound => "ClusterNotFound",
            ErrorCode::CommandNotFound => "CommandNotFound",
            ErrorCode::Duplicate => "Duplicate",
            ErrorCode::NodeNotFound => "NodeNotFound",
            ErrorCode::EndpointNotFound => "EndpointNotFound",
            ErrorCode::EventNotFound => "EventNotFound",
            ErrorCode::InvalidAction => "InvalidAction",
            ErrorCode::InvalidCommand => "InvalidCommand",
            ErrorCode::FailSafeRequired => "FailSafeRequired",
            ErrorCode::NeedsTimedInteraction => "NeedsTimedInteraction",
            ErrorCode::ConstraintError => "ConstraintError",
            ErrorCode::DynamicConstraintError => "DynamicConstraintError",
            ErrorCode::InvalidDataType => "InvalidDataType",
            ErrorCode::UnsupportedAccess => "UnsupportedAccess",
            ErrorCode::ResourceExhausted => "ResourceExhausted",
            ErrorCode::Busy => "Busy",
            ErrorCode::DataVersionMismatch => "DataVersionMismatch",
            ErrorCode::BtpError => "BtpError",
            ErrorCode::MdnsError => "MdnsError",
            ErrorCode::NoCommand => "NoCommand",
            ErrorCode::NoEndpoint => "NoEndpoint",
            ErrorCode::NoExchange => "NoExchange",
            ErrorCode::NoFabricId => "NoFabricId",
            ErrorCode::NoHandler => "NoHandler",
            ErrorCode::NoNetworkInterface => "NoNetworkInterface",
            ErrorCode::DBusError => "DBusError",
            ErrorCode::NoNodeId => "NoNodeId",
            ErrorCode::NoMemory => "NoMemory",
            ErrorCode::NoSession => "NoSession",
            ErrorCode::NoSpace => "NoSpace",
            ErrorCode::NoSpaceExchanges => "NoSpaceExchanges",
            ErrorCode::NoSpaceSessions => "NoSpaceSessions",
            ErrorCode::TxTimeout => "TxTimeout",
            ErrorCode::RxTimeout => "RxTimeout",
            ErrorCode::NoTagFound => "NoTagFound",
            ErrorCode::NotFound => "NotFound",
            ErrorCode::PacketPoolExhaust => "PacketPoolExhaust",
            ErrorCode::StdIoError => "StdIoError",
            ErrorCode::SysTimeFail => "SysTimeFail",
            ErrorCode::Invalid => "Invalid",
            ErrorCode::InvalidAAD => "InvalidAAD",
            ErrorCode::InvalidData => "InvalidData",
            ErrorCode::InvalidKeyLength => "InvalidKeyLength",
            ErrorCode::InvalidOpcode => "InvalidOpcode",
            ErrorCode::InvalidProto => "InvalidProto",
            ErrorCode::InvalidPeerAddr => "InvalidPeerAddr",
            ErrorCode::InvalidAuthKey => "InvalidAuthKey",
            ErrorCode::InvalidSignature => "InvalidSignature",
            ErrorCode::InvalidState => "InvalidState",
            ErrorCode::InvalidTime => "InvalidTime",
            ErrorCode::InvalidArgument => "InvalidArgument",
            ErrorCode::RwLock => "RwLock",
            ErrorCode::TLVNotFound => "TLVNotFound",
            ErrorCode::TLVTypeMismatch => "TLVTypeMismatch",
            ErrorCode::TruncatedPacket => "TruncatedPacket",
            ErrorCode::Utf8Fail => "Utf8Fail",
            ErrorCode::GennCommInvalidAuthentication => "GennCommInvalidAuthentication",
            ErrorCode::NocInvalidNoc => "NocInvalidNoc",
            ErrorCode::NocInvalidPublicKey => "NocInvalidPublicKey",
            ErrorCode::NocMissingCsr => "NocMissingCsr",
            ErrorCode::NocFabricTableFull => "NocFabricTableFull",
            ErrorCode::NocFabricConflict => "NocFabricConflict",
            ErrorCode::NocLabelConflict => "NocLabelConflict",
            ErrorCode::NocInvalidFabricIndex => "NocInvalidFabricIndex",
            ErrorCode::NocInvalidAdminSubject => "NocInvalidAdminSubject",
            ErrorCode::Failure => "Failure",
            ErrorCode::CdInvalidFormat => "CdInvalidFormat",
            ErrorCode::CdInvalidSignature => "CdInvalidSignature",
            ErrorCode::CdSigningKeyNotFound => "CdSigningKeyNotFound",
            ErrorCode::CdInvalidVendorId => "CdInvalidVendorId",
            ErrorCode::CdInvalidProductId => "CdInvalidProductId",
            ErrorCode::CdInvalidPaa => "CdInvalidPaa",
        }
    }
}

/// The failure of an attempt to take a lock that somebody else holds.
#[derive(Debug, Clone, Copy, PartialEq, Eq, Structural)]
pub struct TryLockError;

/// The error used throughout this crate.
#[derive(Debug, Clone, Copy, PartialEq, Eq, Structural)]
pub enum Error {
    /// An error of the Matter protocol.
    Matter(ErrorCode),
    /// Something that should be free was in use.
    InvalidState,
}

impl Error {
    /// The text that describes the error to a user.
    pub open spec fn spec_text(self) -> Seq<char> {
        match self {
            Error::Matter(code) => "Matter error: "@ + code.spec_name(),
            Error::InvalidState => "Invalid state"@,
        }
    }

    /// The text that describes the error to a user.
    pub fn text(self) -> (text: String)
        ensures
            text@ == self.spec_text(),
    {
        match self {
            Error::Matter(code) => {
                let mut text = "Matter error: ".to_owned();
                text.append(code.name());
                text
            },
            Error::InvalidState => "Invalid state".to_owned(),
        }
    }
}

impl From<ErrorCode> for Error {
    fn from(code: ErrorCode) -> (res: Self) {
        Error::Matter(code)
    }
}

impl FromSpecImpl<ErrorCode> for Error {
    open spec fn obeys_from_spec() -> bool {
        true
    }

    open spec fn from_spec(code: ErrorCode) -> Self {
        Error::Matter(code)
    }
}

impl From<TryLockError> for Error {
    fn from(_err: TryLockError) -> (res: Self) {
        Error::InvalidState
    }
}

impl FromSpecImpl<TryLockError> for Error {
    open spec fn obeys_from_spec() -> bool {
        true
    }

    open spec fn from_spec(_err: TryLockError) -> Self {
        Error::InvalidState
    }
}

} // verus!
