//! The types of the `man` crate that the library hands its pages over in.

use vstd::prelude::*;

verus! {

#[verifier::external_type_specification]
#[verifier::external_body]
pub struct ExManual(man::Manual);

#[verifier::external_type_specification]
#[verifier::external_body]
pub struct ExAuthor(man::Author);

#[verifier::external_type_specification]
#[verifier::external_body]
pub struct ExFlag(man::Flag);

#[verifier::external_type_specification]
#[verifier::external_body]
pub struct ExArg(man::Arg);

#[verifier::external_type_specification]
#[verifier::external_body]
pub struct ExSection(man::Section);

} // verus!
