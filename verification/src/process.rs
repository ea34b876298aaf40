//! Trusted view of `cargo_util::ProcessBuilder`, the process-command value
//! the registry hands to its caller for a plugin invocation.
//!
//! The builder itself is opaque here; the two names below stand for the
//! program and the argument list it holds, and the registry's contracts are
//! stated over them.  Spawning the command is the embedding program's
//! business.

use vstd::prelude::*;

use cargo_util::ProcessBuilder;

verus! {

#[verifier::external_type_specification]
#[verifier::external_body]
pub struct ExProcessBuilder(ProcessBuilder);

/// The program a builder would invoke.
pub uninterp spec fn pb_program(p: ProcessBuilder) -> Seq<char>;

/// The positional arguments a builder would pass, in order.
pub uninterp spec fn pb_args(p: ProcessBuilder) -> Seq<Seq<char>>;

/// Relies on cargo_util::ProcessBuilder::new: the returned builder invokes
/// the given program and starts with an empty argument list.
#[verifier::external_body]
pub(crate) fn pb_new(program: &str) -> (r: ProcessBuilder)
    ensures
        pb_program(r) == program@,
        pb_args(r) == Seq::<Seq<char>>::empty(),
{
    ProcessBuilder::new(program)
}

/// Relies on cargo_util::ProcessBuilder::arg: appends one positional
/// argument, leaving the program as it was.
#[verifier::external_body]
pub(crate) fn pb_arg(p: &mut ProcessBuilder, arg: &str)
    ensures
        pb_program(*final(p)) == pb_program(*old(p)),
        pb_args(*final(p)) == pb_args(*old(p)).push(arg@),
{
    p.arg(arg);
}

} // verus!
