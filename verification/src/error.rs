use vstd::prelude::*;

use crate::params::{raw_development_name, RawDevelopment};
use crate::text::{decimal, hex_padded, push_decimal, push_hex_padded};

verus! {

/// An SDK entry point, named as the error messages name it.
#[derive(Debug, Clone, Copy, PartialEq, Eq, Structural)]
pub enum SdkOperation {
    OpenLibrary,
    SetDevelopColorMode,
    OpenSession,
    /// `RawDevelopment` with the as-shot raw parameter set.
    ApplyRawParameterSet,
    SetColorProcess,
    SetOutputProfile,
    GetRawDevelopmentInfo,
    GetRawDevelopmentParam(RawDevelopment),
    /// `RawDevelopment` with the current Picture Control.
    ApplyPictureControl,
    GetImageInfo,
    GetImageData,
}

/// Errors of the Nikon SDK layer.
#[derive(Debug, Clone, Copy, PartialEq, Eq, Structural)]
pub enum NikonError {
    /// A path holds a NUL byte and cannot become a C string.
    PathEncoding,
    /// The image does not fit the SDK's 16-bit rectangle.
    ImageTooLarge { width: u64, height: u64 },
    /// The SDK rendered with a sample width other than one or two bytes.
    UnsupportedByteDepth(u64),
    /// An SDK call answered with a code other than success.
    Sdk { operation: SdkOperation, code: u64 },
}

/// The operation's name as error messages give it.
pub open spec fn operation_name(op: SdkOperation) -> Seq<char> {
    match op {
        SdkOperation::OpenLibrary => "OpenLibrary"@,
        SdkOperation::SetDevelopColorMode => "SetDevelopColorMode"@,
        SdkOperation::OpenSession => "OpenSession"@,
        SdkOperation::ApplyRawParameterSet => "RawDevelopment(RawParameterSet)"@,
        SdkOperation::SetColorProcess => "SetColorProcess"@,
        SdkOperation::SetOutputProfile => "SetOutputProfile"@,
        SdkOperation::GetRawDevelopmentInfo => "GetRawDevelopmentInfo"@,
        SdkOperation::GetRawDevelopmentParam(kind) => "GetRawDevelopmentParam("@ + raw_development_name(kind) + ")"@,
        SdkOperation::ApplyPictureControl => "RawDevelopment(PictureControl)"@,
        SdkOperation::GetImageInfo => "GetImageInfo"@,
        SdkOperation::GetImageData => "GetImageData"@,
    }
}

/// The text of an error.
pub open spec fn error_message(e: NikonError) -> Seq<char> {
    match e {
        NikonError::PathEncoding => "path cannot be passed to Nikon SDK as UTF-8 C string"@,
        NikonError::ImageTooLarge { width, height } =>
            "image is too large for the Nikon SDK Rect: "@ + decimal(width as nat) + "x"@ + decimal(height as nat),
        NikonError::UnsupportedByteDepth(depth) => "unsupported Nikon SDK byte depth: "@ + decimal(depth as nat),
        NikonError::Sdk { operation, code } =>
            "Nikon SDK "@ + operation_name(operation) + " failed with code 0x"@ + hex_padded(code as nat, 4),
    }
}

impl SdkOperation {
    /// The operation's name as error messages give it.
    pub fn name(&self) -> (r: String)
        ensures
            r@ == operation_name(*self),
    {
        match self {
            SdkOperation::OpenLibrary => String::from_str("OpenLibrary"),
            SdkOperation::SetDevelopColorMode => String::from_str("SetDevelopColorMode"),
            SdkOperation::OpenSession => String::from_str("OpenSession"),
            SdkOperation::ApplyRawParameterSet => String::from_str("RawDevelopment(RawParameterSet)"),
            SdkOperation::SetColorProcess => String::from_str("SetColorProcess"),
            SdkOperation::SetOutputProfile => String::from_str("SetOutputProfile"),
            SdkOperation::GetRawDevelopmentInfo => String::from_str("GetRawDevelopmentInfo"),
            SdkOperation::GetRawDevelopmentParam(kind) => {
                let mut s = String::from_str("GetRawDevelopmentParam(");
                s.append(kind.name());
                s.append(")");
                s
            },
            SdkOperation::ApplyPictureControl => String::from_str("RawDevelopment(PictureControl)"),
            SdkOperation::GetImageInfo => String::from_str("GetImageInfo"),
            SdkOperation::GetImageData => String::from_str("GetImageData"),
        }
    }
}

impl NikonError {
    /// The error's text, as its display shows it.
    pub fn message(&self) -> (r: String)
        ensures
            r@ == error_message(*self),
    {
        match self {
            NikonError::PathEncoding => String::from_str("path cannot be passed to Nikon SDK as UTF-8 C string"),
            NikonError::ImageTooLarge { width, height } => {
                let mut s = String::from_str("image is too large for the Nikon SDK Rect: ");
                push_decimal(&mut s, *width);
                s.append("x");
                push_decimal(&mut s, *height);
                s
            },
            NikonError::UnsupportedByteDepth(depth) => {
                let mut s = String::from_str("unsupported Nikon SDK byte depth: ");
                push_decimal(&mut s, *depth);
                s
            },
            NikonError::Sdk { operation, code } => {
                let mut s = String::from_str("Nikon SDK ");
                let name = operation.name();
                s.append(name.as_str());
                s.append(" failed with code 0x");
                push_hex_padded(&mut s, *code, 4);
                s
            },
        }
    }
}

} // verus!
