use vstd::prelude::*;
use vstd::string::*;

verus! {

/// An exception that the C++ side of a cxx bridge threw.
#[verifier::external_type_specification]
#[verifier::external_body]
pub struct ExException(cxx::Exception);

/// The message that an exception carries.
pub uninterp spec fn what_text(exception: cxx::Exception) -> Seq<char>;

/// `cxx::Exception::what`, as an owned string: the message that the
/// exception was thrown with.
#[verifier::external_body]
fn exception_message(exception: &cxx::Exception) -> (message: String)
    ensures
        message@ == what_text(*exception),
{
    exception.what().to_string()
}

/// The one error kind of this crate: an opaque, human-readable message.
#[derive(Debug, Clone)]
pub struct Error {
    msg: String,
}

impl View for Error {
    type V = Seq<char>;

    closed spec fn view(&self) -> Seq<char> {
        self.msg@
    }
}

impl Error {
    /// An error that carries `s` as its message.
    pub fn from_string(s: String) -> (e: Self)
        ensures
            e@ == s@,
    {
        Error { msg: s }
    }

    /// An error that carries the message of an exception of the
    /// transport.
    pub fn from_cxx_exception(e: cxx::Exception) -> (error: Self)
        ensures
            error@ == what_text(e),
    {
        Error { msg: exception_message(&e) }
    }

    /// The message that the error carries.
    pub fn message(&self) -> (m: String)
        ensures
            m@ == self@,
    {
        self.msg.clone()
    }

    /// The text shown for this error: a fixed prefix, then the message.
    pub fn to_string(&self) -> (text: String)
        ensures
            text@ == "SimpleBLE error: "@ + self@,
    {
        String::from_str("SimpleBLE error: ").concat(self.msg.as_str())
    }
}

/// How a peripheral's address was assigned.
#[derive(Debug, Clone, Copy, PartialEq, Eq, Structural)]
pub enum BluetoothAddressType {
    Public,
    Random,
    Unspecified,
}

impl BluetoothAddressType {
    /// What a transport's numeric address type stands for: each number
    /// that is not known decodes to `Unspecified`.
    pub open spec fn decode(raw: i32) -> BluetoothAddressType {
        if raw == 0 {
            BluetoothAddressType::Public
        } else if raw == 1 {
            BluetoothAddressType::Random
        } else {
            BluetoothAddressType::Unspecified
        }
    }

    /// Decodes a transport's numeric address type, leniently.
    pub fn from_raw(raw: i32) -> (t: Self)
        ensures
            t == Self::decode(raw),
    {
        if raw == 0 {
            BluetoothAddressType::Public
        } else if raw == 1 {
            BluetoothAddressType::Random
        } else {
            BluetoothAddressType::Unspecified
        }
    }

    /// The variant's name.
    pub open spec fn name(self) -> Seq<char> {
        match self {
            BluetoothAddressType::Public => "Public"@,
            BluetoothAddressType::Random => "Random"@,
            BluetoothAddressType::Unspecified => "Unspecified"@,
        }
    }

    /// The text shown for this address type.
    pub fn to_string(&self) -> (text: String)
        ensures
            text@ == self.name(),
    {
        match self {
            BluetoothAddressType::Public => String::from_str("Public"),
            BluetoothAddressType::Random => String::from_str("Random"),
            BluetoothAddressType::Unspecified => String::from_str("Unspecified"),
        }
    }
}

/// One thing that a characteristic allows.
#[derive(Debug, Clone, Copy, PartialEq, Eq, Structural)]
pub enum CharacteristicCapability {
    Read,
    WriteRequest,
    WriteCommand,
    Notify,
    Indicate,
}

impl CharacteristicCapability {
    /// The variant's name.
    pub open spec fn name(self) -> Seq<char> {
        match self {
            CharacteristicCapability::Read => "Read"@,
            CharacteristicCapability::WriteRequest => "WriteRequest"@,
            CharacteristicCapability::WriteCommand => "WriteCommand"@,
            CharacteristicCapability::Notify => "Notify"@,
            CharacteristicCapability::Indicate => "Indicate"@,
        }
    }

    /// The text shown for this capability.
    pub fn to_string(&self) -> (text: String)
        ensures
            text@ == self.name(),
    {
        match self {
            CharacteristicCapability::Read => String::from_str("Read"),
            CharacteristicCapability::WriteRequest => String::from_str("WriteRequest"),
            CharacteristicCapability::WriteCommand => String::from_str("WriteCommand"),
            CharacteristicCapability::Notify => String::from_str("Notify"),
            CharacteristicCapability::Indicate => String::from_str("Indicate"),
        }
    }
}

} // verus!
