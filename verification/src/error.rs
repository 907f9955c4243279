//! Error taxonomy of the library.
//!
//! Every fallible operation returns one of these enums; nothing panics on an
//! expected failure. Each type offers a `message` method that yields a
//! human-readable description for the host boundary, carrying the text the
//! error holds; numeric fields stay available on the variants themselves.

use vstd::prelude::*;
use vstd::string::StringExecFns;

verus! {

/// Errors raised by the core data model: coordinates, markers, themes,
/// topology and the marker buffer.
#[derive(Debug, Clone, PartialEq, Eq)]
pub enum CoreError {
    /// A latitude/longitude pair was outside its range.
    /// Values are in microdegrees.
    InvalidCoordinates {
        /// Latitude in microdegrees.
        lat: i64,
        /// Longitude in microdegrees.
        lon: i64,
    },
    /// A marker identifier, intensity or radius was invalid.
    InvalidMarkerId {
        /// Marker identifier or description of the violated range.
        id: String,
    },
    /// A theme value failed validation.
    ThemeValidationFailed {
        /// Reason for the failure.
        reason: String,
    },
    /// A topology payload could not be parsed.
    TopologyParseError {
        /// Details of the failure.
        details: String,
    },
    /// The marker buffer was full, or an update index was out of bounds.
    BufferOverflow {
        /// Requested size or index bound.
        requested: usize,
        /// Available capacity.
        capacity: usize,
    },
}

impl CoreError {
    /// The description returned by `message`.
    pub open spec fn spec_message(&self) -> Seq<char> {
        match self {
            CoreError::InvalidCoordinates { .. } => "Invalid coordinates"@,
            CoreError::InvalidMarkerId { id } => "Invalid marker ID: "@ + id@,
            CoreError::ThemeValidationFailed { reason } => "Theme validation failed: "@ + reason@,
            CoreError::TopologyParseError { details } => "Topology parse error: "@ + details@,
            CoreError::BufferOverflow { .. } => "Buffer overflow"@,
        }
    }

    /// Human-readable description of the error, carrying the text it holds.
    pub fn message(&self) -> (r: String)
        ensures
            r@ == self.spec_message(),
    {
        match self {
            CoreError::InvalidCoordinates { .. } => "Invalid coordinates".to_owned(),
            CoreError::InvalidMarkerId { id } => String::from_str("Invalid marker ID: ").concat(
                id.as_str(),
            ),
            CoreError::ThemeValidationFailed { reason } => String::from_str(
                "Theme validation failed: ",
            ).concat(reason.as_str()),
            CoreError::TopologyParseError { details } => String::from_str(
                "Topology parse error: ",
            ).concat(details.as_str()),
            CoreError::BufferOverflow { .. } => "Buffer overflow".to_owned(),
        }
    }
}

/// Errors raised by the GPU layer: context creation, shader compilation and
/// linking, buffer allocation, and binding lookups.
#[derive(Debug, Clone, PartialEq, Eq)]
pub enum RenderError {
    /// The drawing context could not be created.
    WebGLContextCreationFailed,
    /// A shader stage failed to compile.
    ShaderCompilationFailed {
        /// Stage name ("vertex" or "fragment").
        shader_type: String,
        /// Compiler diagnostic log.
        log: String,
    },
    /// The program failed to link.
    ProgramLinkingFailed {
        /// Linker diagnostic log.
        log: String,
    },
    /// A device buffer could not be allocated.
    BufferAllocationFailed {
        /// Requested size in bytes.
        size: usize,
    },
    /// The backend does not support the required version.
    UnsupportedWebGLVersion,
    /// A uniform binding was not found by name.
    UniformLocationNotFound {
        /// Uniform name.
        name: String,
    },
    /// The draw-state bundle could not be created.
    VaoCreationFailed,
}

impl RenderError {
    /// The description returned by `message`.
    pub open spec fn spec_message(&self) -> Seq<char> {
        match self {
            RenderError::WebGLContextCreationFailed => "Failed to create WebGL2 context"@,
            RenderError::ShaderCompilationFailed { shader_type, log } => {
                "Shader compilation failed ("@ + shader_type@ + "): "@ + log@
            },
            RenderError::ProgramLinkingFailed { log } => "Program linking failed: "@ + log@,
            RenderError::BufferAllocationFailed { .. } => "Buffer allocation failed"@,
            RenderError::UnsupportedWebGLVersion => "WebGL2 not supported"@,
            RenderError::UniformLocationNotFound { name } => "Uniform location not found: "@
                + name@,
            RenderError::VaoCreationFailed => "Failed to create Vertex Array Object"@,
        }
    }

    /// Human-readable description of the error, carrying the stage name and
    /// the diagnostic log or uniform name it holds.
    pub fn message(&self) -> (r: String)
        ensures
            r@ == self.spec_message(),
    {
        match self {
            RenderError::WebGLContextCreationFailed => {
                "Failed to create WebGL2 context".to_owned()
            },
            RenderError::ShaderCompilationFailed { shader_type, log } => String::from_str(
                "Shader compilation failed (",
            ).concat(shader_type.as_str()).concat("): ").concat(log.as_str()),
            RenderError::ProgramLinkingFailed { log } => String::from_str(
                "Program linking failed: ",
            ).concat(log.as_str()),
            RenderError::BufferAllocationFailed { .. } => "Buffer allocation failed".to_owned(),
            RenderError::UnsupportedWebGLVersion => "WebGL2 not supported".to_owned(),
            RenderError::UniformLocationNotFound { name } => String::from_str(
                "Uniform location not found: ",
            ).concat(name.as_str()),
            RenderError::VaoCreationFailed => "Failed to create Vertex Array Object".to_owned(),
        }
    }
}

/// Errors raised by the host-facing component wrapper.
#[derive(Debug, Clone, PartialEq, Eq)]
pub enum ComponentError {
    /// A host attribute could not be parsed.
    AttributeParseError {
        /// Attribute name.
        attribute: String,
        /// Invalid value.
        value: String,
    },
    /// Marker records could not be fetched from a URL.
    MarkerUrlFetchFailed {
        /// Marker URL.
        url: String,
        /// HTTP status code.
        status: u16,
    },
    /// The component has not been mounted yet.
    ComponentNotMounted,
    /// A rendering operation failed.
    RenderError {
        /// Error details.
        details: String,
    },
}

impl ComponentError {
    /// The description returned by `message`.
    pub open spec fn spec_message(&self) -> Seq<char> {
        match self {
            ComponentError::AttributeParseError { attribute, value } => {
                "Failed to parse attribute '"@ + attribute@ + "': "@ + value@
            },
            ComponentError::MarkerUrlFetchFailed { url, .. } => "Failed to fetch markers from "@
                + url@,
            ComponentError::ComponentNotMounted => "Component not mounted"@,
            ComponentError::RenderError { details } => "Render error: "@ + details@,
        }
    }

    /// Human-readable description of the error, carrying the text it holds.
    pub fn message(&self) -> (r: String)
        ensures
            r@ == self.spec_message(),
    {
        match self {
            ComponentError::AttributeParseError { attribute, value } => String::from_str(
                "Failed to parse attribute '",
            ).concat(attribute.as_str()).concat("': ").concat(value.as_str()),
            ComponentError::MarkerUrlFetchFailed { url, .. } => String::from_str(
                "Failed to fetch markers from ",
            ).concat(url.as_str()),
            ComponentError::ComponentNotMounted => "Component not mounted".to_owned(),
            ComponentError::RenderError { details } => String::from_str("Render error: ").concat(
                details.as_str(),
            ),
        }
    }
}

} // verus!
