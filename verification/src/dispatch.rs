//! The runtime dispatcher: the long-lived object the host talks to.  It
//! exposes the compiled signature list once, at startup, and serves calls
//! one at a time: each call is bound to typed command data through the
//! compiled schema, handed to the handler, and the handler's result or
//! error is passed back to the host verbatim.

use vstd::prelude::*;
use crate::call::CallError;
use crate::call::FlagInput;
use crate::call::ParsedCall;
use crate::call::RawValue;
use crate::call::flags_view;
use crate::call::parse;
use crate::call::parse_spec;
use crate::call::raws_view;
use crate::compile::CompiledSchema;
use crate::descriptor::SignatureDescriptor;
use crate::values::DataValue;

verus! {

/// An error the handler reports for one call.  It is opaque to the
/// dispatcher: passed through unchanged as the call's failure result.
#[derive(Debug)]
pub struct HandlerError {
    pub label: String,
    pub msg: String,
}

/// What a served call can fail with: a call error from binding, or
/// whatever the handler reported.
#[derive(Debug)]
pub enum RunError {
    Call(CallError),
    Handler(HandlerError),
}

/// The handler a dispatcher drives: one invocation per accepted call, with
/// the typed command value and the call's raw input payload.
pub trait CommandHandler {
    fn handle(&mut self, command: ParsedCall, input: &DataValue) -> Result<DataValue, HandlerError>;
}

/// The long-lived dispatcher: the compiled schema and the handler it
/// drives.  Both are fixed at construction; calls are served one at a
/// time, in the order the host delivers them.
#[derive(Debug)]
pub struct RuntimeDispatcher<H: CommandHandler> {
    pub schema: CompiledSchema,
    pub handler: H,
}

impl<H: CommandHandler> RuntimeDispatcher<H> {
    /// Builds a dispatcher over a compiled schema and a handler.
    pub fn new(schema: CompiledSchema, handler: H) -> (r: RuntimeDispatcher<H>)
        ensures
            r.schema == schema,
    {
        RuntimeDispatcher { schema, handler }
    }

    /// The signature list, for host registration and introspection.
    pub fn signatures(&self) -> (r: &Vec<SignatureDescriptor>)
        ensures
            r == self.schema.signatures,
    {
        &self.schema.signatures
    }

    /// Serves one call: binds it to a typed command value, surfacing the
    /// call error unmodified when binding fails, and otherwise propagates
    /// the handler's result or error verbatim.
    pub fn run(
        &mut self,
        name: &String,
        positional: &Vec<RawValue>,
        flags: &Vec<FlagInput>,
        input: &DataValue,
    ) -> (r: Result<DataValue, RunError>)
        ensures
            final(self).schema == old(self).schema,
            match parse_spec(
                old(self).schema@,
                name@,
                raws_view(positional@),
                flags_view(flags@),
            ) {
                Result::Err(e) => r matches Result::Err(RunError::Call(ce)) && ce@ == e,
                Result::Ok(_) => !(r matches Result::Err(RunError::Call(_))),
            },
    {
        match parse(&self.schema, name, positional, flags) {
            Result::Err(e) => Result::Err(RunError::Call(e)),
            Result::Ok(command) => match self.handler.handle(command, input) {
                Result::Ok(v) => Result::Ok(v),
                Result::Err(e) => Result::Err(RunError::Handler(e)),
            },
        }
    }
}

} // verus!
