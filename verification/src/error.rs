//! The error taxonomy shared by every conversion step.
//!
//! Two of the variants originate outside the translator (compilation and
//! loading); the remaining three classify why a translation was refused.

use vstd::prelude::*;
use vstd::string::StringExecFns;

verus! {

/// An enumerated catalog of LLVM features that are deliberately out of scope.
/// Meeting one of these is a typed rejection, never a silent approximation.
#[derive(Debug, Clone, Copy, PartialEq, Eq, Structural)]
pub enum Unsupported {
    ModuleLevelAssembly,
    InlineAssembly,
    GlobalAlias,
    GlobalMarker,
    FloatingPoint,
    FloatingPointOrdering,
    VectorOfPointers,
    Vectorization,
    ScalableVector,
    VectorBitcast,
    VariadicArguments,
    ArchSpecificExtension,
    TypedPointer,
    ThreadLocalStorage,
    WeakGlobalVariable,
    WeakFunction,
    ExternGlobalVariable,
    ExternFunction,
    PointerAddressSpace,
    OutOfBoundConstantGEP,
    InterfaceResolver,
    AnonymousFunction,
    IndirectJump,
    IntrinsicsExperimentalGC,
    IntrinsicsPreAllocated,
    AtomicInstruction,
    ExceptionHandling,
    MetadataSystem,
}

/// The display text of each unsupported feature, as pure data.
pub open spec fn unsupported_text(u: Unsupported) -> Seq<char> {
    match u {
        Unsupported::ModuleLevelAssembly => "module-level assembly"@,
        Unsupported::InlineAssembly => "inline assembly"@,
        Unsupported::GlobalAlias => "global alias"@,
        Unsupported::GlobalMarker => "markers for global values"@,
        Unsupported::FloatingPoint => "floating point arithmetic"@,
        Unsupported::FloatingPointOrdering => "floating point ordered comparison"@,
        Unsupported::VectorOfPointers => "vector of pointers"@,
        Unsupported::Vectorization => "vectorization"@,
        Unsupported::ScalableVector => "scalable vector of non-fixed size"@,
        Unsupported::VectorBitcast => "bitcast among vector and scalar"@,
        Unsupported::VariadicArguments => "variadic arguments"@,
        Unsupported::ArchSpecificExtension => "architecture-specific extension"@,
        Unsupported::TypedPointer => "typed pointer"@,
        Unsupported::ThreadLocalStorage => "thread-local storage"@,
        Unsupported::WeakGlobalVariable => "weak definition for global variable"@,
        Unsupported::WeakFunction => "weak definition for function"@,
        Unsupported::ExternGlobalVariable => "global variable externally initialized"@,
        Unsupported::ExternFunction => "function externally defined"@,
        Unsupported::PointerAddressSpace => "address space of a pointer"@,
        Unsupported::OutOfBoundConstantGEP => "intentional out-of-bound GEP on constant"@,
        Unsupported::InterfaceResolver => "load-time interface resolving"@,
        Unsupported::AnonymousFunction => "anonymous function"@,
        Unsupported::IndirectJump => "indirect jump (e.g., through register)"@,
        Unsupported::IntrinsicsExperimentalGC => "llvm.experimental.gc.*"@,
        Unsupported::IntrinsicsPreAllocated => "llvm.call.preallocated.*"@,
        Unsupported::AtomicInstruction => "atomic instruction"@,
        Unsupported::ExceptionHandling => "exception handling"@,
        Unsupported::MetadataSystem => "metadata system"@,
    }
}

impl Unsupported {
    /// A short human-readable description of the feature.
    pub fn describe(&self) -> (r: String)
        ensures
            r@ == unsupported_text(*self),
    {
        match self {
            Unsupported::ModuleLevelAssembly => "module-level assembly".to_owned(),
            Unsupported::InlineAssembly => "inline assembly".to_owned(),
            Unsupported::GlobalAlias => "global alias".to_owned(),
            Unsupported::GlobalMarker => "markers for global values".to_owned(),
            Unsupported::FloatingPoint => "floating point arithmetic".to_owned(),
            Unsupported::FloatingPointOrdering => "floating point ordered comparison".to_owned(),
            Unsupported::VectorOfPointers => "vector of pointers".to_owned(),
            Unsupported::Vectorization => "vectorization".to_owned(),
            Unsupported::ScalableVector => "scalable vector of non-fixed size".to_owned(),
            Unsupported::VectorBitcast => "bitcast among vector and scalar".to_owned(),
            Unsupported::VariadicArguments => "variadic arguments".to_owned(),
            Unsupported::ArchSpecificExtension => "architecture-specific extension".to_owned(),
            Unsupported::TypedPointer => "typed pointer".to_owned(),
            Unsupported::ThreadLocalStorage => "thread-local storage".to_owned(),
            Unsupported::WeakGlobalVariable => "weak definition for global variable".to_owned(),
            Unsupported::WeakFunction => "weak definition for function".to_owned(),
            Unsupported::ExternGlobalVariable => "global variable externally initialized".to_owned(),
            Unsupported::ExternFunction => "function externally defined".to_owned(),
            Unsupported::PointerAddressSpace => "address space of a pointer".to_owned(),
            Unsupported::OutOfBoundConstantGEP => "intentional out-of-bound GEP on constant".to_owned(),
            Unsupported::InterfaceResolver => "load-time interface resolving".to_owned(),
            Unsupported::AnonymousFunction => "anonymous function".to_owned(),
            Unsupported::IndirectJump => "indirect jump (e.g., through register)".to_owned(),
            Unsupported::IntrinsicsExperimentalGC => "llvm.experimental.gc.*".to_owned(),
            Unsupported::IntrinsicsPreAllocated => "llvm.call.preallocated.*".to_owned(),
            Unsupported::AtomicInstruction => "atomic instruction".to_owned(),
            Unsupported::ExceptionHandling => "exception handling".to_owned(),
            Unsupported::MetadataSystem => "metadata system".to_owned(),
        }
    }
}

/// An error raised while turning an adapter-form module into bridge form.
#[derive(Debug, Clone, PartialEq, Eq)]
pub enum EngineError {
    /// Error during the compilation of the input (surfaced from upstream)
    CompilationError(String),
    /// Error during the loading of a compiled LLVM module
    LLVMLoadingError(String),
    /// An assumption made about typical input shape proved false
    InvalidAssumption(String),
    /// Operation not supported yet
    NotSupportedYet(Unsupported),
    /// An internal consistency contract was broken
    InvariantViolation(String),
}

/// Mathematical model of an engine error.
#[verifier::ext_equal]
pub enum ErrorSpec {
    CompilationError(Seq<char>),
    LLVMLoadingError(Seq<char>),
    InvalidAssumption(Seq<char>),
    NotSupportedYet(Unsupported),
    InvariantViolation(Seq<char>),
}

impl View for EngineError {
    type V = ErrorSpec;

    open spec fn view(&self) -> ErrorSpec {
        match self {
            EngineError::CompilationError(m) => ErrorSpec::CompilationError(m@),
            EngineError::LLVMLoadingError(m) => ErrorSpec::LLVMLoadingError(m@),
            EngineError::InvalidAssumption(m) => ErrorSpec::InvalidAssumption(m@),
            EngineError::NotSupportedYet(u) => ErrorSpec::NotSupportedYet(*u),
            EngineError::InvariantViolation(m) => ErrorSpec::InvariantViolation(m@),
        }
    }
}

/// The display text of an engine error: a category tag followed by the detail.
pub open spec fn error_text(e: ErrorSpec) -> Seq<char> {
    match e {
        ErrorSpec::CompilationError(m) => "[libra::compilation] "@ + m,
        ErrorSpec::LLVMLoadingError(m) => "[libra::loading] "@ + m,
        ErrorSpec::InvalidAssumption(m) => "[libra::assumption] "@ + m,
        ErrorSpec::NotSupportedYet(u) => "[libra::unsupported] "@ + unsupported_text(u),
        ErrorSpec::InvariantViolation(m) => "[libra::invariant] "@ + m,
    }
}

impl EngineError {
    /// The prefixed, human-readable form of the error.
    pub fn describe(&self) -> (r: String)
        ensures
            r@ == error_text(self@),
    {
        match self {
            EngineError::CompilationError(m) => {
                let mut s = "[libra::compilation] ".to_owned();
                s.append(m.as_str());
                s
            }
            EngineError::LLVMLoadingError(m) => {
                let mut s = "[libra::loading] ".to_owned();
                s.append(m.as_str());
                s
            }
            EngineError::InvalidAssumption(m) => {
                let mut s = "[libra::assumption] ".to_owned();
                s.append(m.as_str());
                s
            }
            EngineError::NotSupportedYet(u) => {
                let mut s = "[libra::unsupported] ".to_owned();
                let d = u.describe();
                s.append(d.as_str());
                s
            }
            EngineError::InvariantViolation(m) => {
                let mut s = "[libra::invariant] ".to_owned();
                s.append(m.as_str());
                s
            }
        }
    }
}

/// The result form every conversion function returns.
pub type EngineResult<T> = Result<T, EngineError>;

/// A result seen through the views of both of its sides.
pub open spec fn result_view<T: View, E: View>(r: Result<T, E>) -> Result<T::V, E::V> {
    match r {
        Result::Ok(v) => Result::Ok(v@),
        Result::Err(e) => Result::Err(e@),
    }
}

} // verus!
