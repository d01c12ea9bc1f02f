//! What every backend offers: a name, the types of its settings and
//! requirements, and the rendering of inputs as bytes or as text.

use crate::attribute::CodeData;
use crate::class::Class;
use crate::codegen::java::{ClassContext, FieldContext, JavaContext};
use crate::codegen::render::{
    message_view, spec_expression_bytes, spec_field_bytes, spec_type_text, spec_write_class,
    spec_requirements, spec_type_imports, spec_write_method, GenerateError, JavaBackend,
    JavaScopeRequirements,
};
use crate::ir::expression::Expression;
use crate::member::Member;
use crate::text::string_from_utf8;
use crate::ty::JVMType;
use vstd::prelude::*;
use vstd::utf8::{decode_utf8, encode_utf8, valid_utf8};

verus! {

/// A backend: a target language with its settings and with what its output
/// requires of the file around it.
pub trait GeneratorBackend: Sized {
    /// The settings of a run.
    type LanguageContext;

    /// What a rendered piece requires of the file around it.
    type ScopeRequirements;

    /// The name of the target language.
    spec fn spec_name(&self) -> Seq<char>;

    /// The name of the target language.
    fn name(&self) -> (r: &'static str)
        ensures
            r@ == self.spec_name(),
    ;
}

/// The outcome of a rendering together with its requirements.
pub struct GeneratorResult<B: GeneratorBackend, R, E> {
    pub inner: Result<R, E>,
    pub requirements: B::ScopeRequirements,
}

/// A rendering that succeeded together with its requirements.
pub struct GeneratorResultOk<B: GeneratorBackend, R> {
    pub value: R,
    pub requirements: B::ScopeRequirements,
}

impl<B: GeneratorBackend, R, E> GeneratorResult<B, R, E> {
    /// The outcome and the requirements as one value.
    pub fn from(value: (Result<R, E>, B::ScopeRequirements)) -> (r: Self)
        ensures
            r.inner == value.0,
            r.requirements == value.1,
    {
        let (inner, requirements) = value;
        GeneratorResult { inner, requirements }
    }

    /// The outcome alone.
    pub fn deref(&self) -> (r: &Result<R, E>)
        ensures
            r == &self.inner,
    {
        &self.inner
    }

    /// The value with the requirements where the rendering succeeded, the
    /// failure alone where it did not.
    pub fn try_into(self) -> (r: Result<GeneratorResultOk<B, R>, E>)
        ensures
            match r {
                Ok(done) => self.inner == Ok::<R, E>(done.value) && done.requirements
                    == self.requirements,
                Err(e) => self.inner == Err::<R, E>(e),
            },
    {
        match self.inner {
            Ok(value) => Ok(GeneratorResultOk { value, requirements: self.requirements }),
            Err(e) => Err(e),
        }
    }
}

/// The rendering of inputs of type `I` in a context of type `C`.
pub trait GenerateCode<I, C>: GeneratorBackend {
    /// The bytes that the backend writes for `input`, or why it cannot.
    spec fn spec_written(&self, lang: &Self::LanguageContext, ctx: &C, input: &I) -> Result<
        Seq<u8>,
        GenerateError,
    >;

    /// Whether `requirements` is what the rendering of `input` requires of
    /// the file around it.
    spec fn spec_required(
        &self,
        lang: &Self::LanguageContext,
        ctx: &C,
        input: &I,
        requirements: &Self::ScopeRequirements,
    ) -> bool;

    /// Appends the bytes of `input` to `w` and gives what they require; a
    /// failure leaves `w` as it was.
    fn write_value(&self, lang: &Self::LanguageContext, ctx: &C, input: &I, w: &mut Vec<u8>) -> (r:
        Result<Self::ScopeRequirements, GenerateError>)
        ensures
            match r {
                Ok(requirements) => <Self as GenerateCode<I, C>>::spec_written(
                    self,
                    lang,
                    ctx,
                    input,
                ) matches Ok(bytes) && final(w)@ == old(w)@ + bytes
                    && <Self as GenerateCode<I, C>>::spec_required(
                    self,
                    lang,
                    ctx,
                    input,
                    &requirements,
                ),
                Err(e) => <Self as GenerateCode<I, C>>::spec_written(self, lang, ctx, input)
                    == Err::<Seq<u8>, GenerateError>(e) && final(w)@ == old(w)@,
            },
    ;
}

/// The bytes that `backend` writes for `input` as text; bytes that are not
/// UTF-8 are the invalid-text failure.
pub fn generate<B: GenerateCode<I, C>, I, C>(
    backend: &B,
    lang: &B::LanguageContext,
    ctx: &C,
    input: &I,
) -> (r: Result<(String, B::ScopeRequirements), GenerateError>)
    ensures
        match r {
            Ok(done) => <B as GenerateCode<I, C>>::spec_written(backend, lang, ctx, input)
                matches Ok(bytes) && valid_utf8(bytes) && done.0@ == decode_utf8(bytes)
                && <B as GenerateCode<I, C>>::spec_required(backend, lang, ctx, input, &done.1),
            Err(e) => match <B as GenerateCode<I, C>>::spec_written(backend, lang, ctx, input) {
                Ok(bytes) => !valid_utf8(bytes) && e == GenerateError::InvalidText,
                Err(f) => e == f,
            },
        },
{
    let mut buff: Vec<u8> = Vec::new();
    let req = match backend.write_value(lang, ctx, input, &mut buff) {
        Ok(req) => req,
        Err(e) => return Err(e),
    };
    match string_from_utf8(buff) {
        Some(text) => Ok((text, req)),
        None => Err(GenerateError::InvalidText),
    }
}

impl GeneratorBackend for JavaBackend {
    type LanguageContext = JavaContext;

    type ScopeRequirements = JavaScopeRequirements;

    open spec fn spec_name(&self) -> Seq<char> {
        "Java"@
    }

    fn name(&self) -> (r: &'static str) {
        "Java"
    }
}

/// Appends `bytes` to `w`.
fn append(w: &mut Vec<u8>, bytes: &Vec<u8>)
    ensures
        final(w)@ == old(w)@ + bytes@,
{
    w.extend_from_slice(bytes.as_slice());
}

impl GenerateCode<JVMType, ()> for JavaBackend {
    open spec fn spec_written(&self, lang: &JavaContext, ctx: &(), input: &JVMType) -> Result<
        Seq<u8>,
        GenerateError,
    > {
        Ok(encode_utf8(spec_type_text(input@)))
    }

    open spec fn spec_required(
        &self,
        lang: &JavaContext,
        ctx: &(),
        input: &JVMType,
        requirements: &JavaScopeRequirements,
    ) -> bool {
        requirements@ == spec_requirements(spec_type_imports(input@))
    }

    fn write_value(&self, lang: &JavaContext, ctx: &(), input: &JVMType, w: &mut Vec<u8>) -> (r:
        Result<JavaScopeRequirements, GenerateError>) {
        let (text, req) = self.write_type(input);
        w.extend_from_slice(text.as_str().as_bytes());
        Ok(req)
    }
}

impl GenerateCode<Member, FieldContext> for JavaBackend {
    open spec fn spec_written(
        &self,
        lang: &JavaContext,
        ctx: &FieldContext,
        input: &Member,
    ) -> Result<Seq<u8>, GenerateError> {
        Ok(spec_field_bytes(input@))
    }

    open spec fn spec_required(
        &self,
        lang: &JavaContext,
        ctx: &FieldContext,
        input: &Member,
        requirements: &JavaScopeRequirements,
    ) -> bool {
        requirements@ == spec_requirements(spec_type_imports(input@.descriptor.value))
    }

    fn write_value(
        &self,
        lang: &JavaContext,
        ctx: &FieldContext,
        input: &Member,
        w: &mut Vec<u8>,
    ) -> (r: Result<JavaScopeRequirements, GenerateError>) {
        let (bytes, req) = self.write_field(input);
        append(w, &bytes);
        Ok(req)
    }
}

impl GenerateCode<Member, ClassContext> for JavaBackend {
    open spec fn spec_written(
        &self,
        lang: &JavaContext,
        ctx: &ClassContext,
        input: &Member,
    ) -> Result<Seq<u8>, GenerateError> {
        match spec_write_method(
            self.verbosity,
            match lang.constant_pool {
                Some(p) => Some(p@),
                None => None,
            },
            ctx.class_name@,
            ctx.synthetic,
            input@,
        ) {
            Ok(written) => Ok(written.0),
            Err(e) => Err(e),
        }
    }

    open spec fn spec_required(
        &self,
        lang: &JavaContext,
        ctx: &ClassContext,
        input: &Member,
        requirements: &JavaScopeRequirements,
    ) -> bool {
        spec_write_method(
            self.verbosity,
            match lang.constant_pool {
                Some(p) => Some(p@),
                None => None,
            },
            ctx.class_name@,
            ctx.synthetic,
            input@,
        ) matches Ok(written) && requirements@ == spec_requirements(written.1)
    }

    fn write_value(
        &self,
        lang: &JavaContext,
        ctx: &ClassContext,
        input: &Member,
        w: &mut Vec<u8>,
    ) -> (r: Result<JavaScopeRequirements, GenerateError>) {
        match self.write_method(lang, ctx, input) {
            Ok((bytes, req)) => {
                append(w, &bytes);
                Ok(req)
            },
            Err(e) => Err(e),
        }
    }
}

impl GenerateCode<Class, ()> for JavaBackend {
    open spec fn spec_written(&self, lang: &JavaContext, ctx: &(), input: &Class) -> Result<
        Seq<u8>,
        GenerateError,
    > {
        spec_write_class(
            self.verbosity,
            message_view(lang.header_message),
            lang.indentation,
            input@,
        )
    }

    open spec fn spec_required(
        &self,
        lang: &JavaContext,
        ctx: &(),
        input: &Class,
        requirements: &JavaScopeRequirements,
    ) -> bool {
        requirements@ == spec_requirements(Seq::empty())
    }

    fn write_value(&self, lang: &JavaContext, ctx: &(), input: &Class, w: &mut Vec<u8>) -> (r:
        Result<JavaScopeRequirements, GenerateError>) {
        match self.write_class(lang, input) {
            Ok((bytes, req)) => {
                append(w, &bytes);
                Ok(req)
            },
            Err(e) => Err(e),
        }
    }
}

/// What the rendering of a statement is given: the method and its code
/// body.
pub struct CodeGenContext<'m, 'data> {
    pub method: &'m Member,
    pub code: &'data CodeData,
}

impl<'m, 'data> GenerateCode<Expression, CodeGenContext<'m, 'data>> for JavaBackend {
    open spec fn spec_written(
        &self,
        lang: &JavaContext,
        ctx: &CodeGenContext<'m, 'data>,
        input: &Expression,
    ) -> Result<Seq<u8>, GenerateError> {
        spec_expression_bytes(*input, self.verbosity)
    }

    open spec fn spec_required(
        &self,
        lang: &JavaContext,
        ctx: &CodeGenContext<'m, 'data>,
        input: &Expression,
        requirements: &JavaScopeRequirements,
    ) -> bool {
        requirements@ == spec_requirements(Seq::empty())
    }

    fn write_value(
        &self,
        lang: &JavaContext,
        ctx: &CodeGenContext<'m, 'data>,
        input: &Expression,
        w: &mut Vec<u8>,
    ) -> (r: Result<JavaScopeRequirements, GenerateError>) {
        match self.write_expression(input) {
            Ok(bytes) => {
                append(w, &bytes);
                Ok(JavaScopeRequirements::default())
            },
            Err(e) => Err(e),
        }
    }
}

} // verus!
