use vstd::prelude::*;
use vstd::string::StringExecFns;

verus! {

/// A physical device lacks something the app cannot do without; the string
/// names what is missing.
#[derive(Debug)]
pub struct SuitabilityError(pub &'static str);

impl SuitabilityError {
    /// The text the error is shown with: `Missing {what}.`
    pub fn message(&self) -> (text: String)
        ensures
            text@ == "Missing "@ + self.0@ + "."@,
    {
        let mut text = String::from_str("Missing ");
        text.append(self.0);
        text.append(".");
        text
    }
}

/// Why a decision of the library refused to go on.
#[derive(Debug)]
pub enum AppError {
    /// Validation layers were asked for but the loader does not offer them.
    ValidationUnsupported,
    /// Shader bytecode whose length is zero or not a multiple of four bytes.
    ShaderBytecodeLength(usize),
    /// No aligned buffer could be allocated for shader bytecode.
    ShaderBytecodeAlloc,
    /// The surface reports values no swapchain can be built from (no formats,
    /// an image count at the top of the `u32` range, or an empty extent range).
    UnusableSurface,
}

} // verus!
