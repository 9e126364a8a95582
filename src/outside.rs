use vstd::prelude::*;

verus! {

/// std's owned path, carried through as it is.
#[verifier::external_type_specification]
#[verifier::external_body]
pub struct ExPathBuf(std::path::PathBuf);

/// Whether a text parses as an SPDX license expression.
pub uninterp spec fn is_license_expression(s: Seq<char>) -> bool;

/// Relies on spdx::Expression::parse: `Ok` exactly when the text is a valid
/// license expression; the error is the parser's message.
#[verifier::external_body]
pub(crate) fn parse_license(s: &str) -> (r: Result<(), String>)
    ensures
        r.is_ok() == is_license_expression(s@),
{
    spdx::Expression::parse(s).map(|_| ()).map_err(|e| e.to_string())
}

/// Relies on spdx::identifiers::VERSION: the version of the SPDX license
/// list that the crate carries.
#[verifier::external_body]
pub(crate) fn license_list_version() -> (r: String)
    ensures
        r@ == "3.18"@,
{
    spdx::identifiers::VERSION.to_string()
}

/// Relies on uuid::Uuid::new_v4 and its `Display`: a fresh random
/// identifier in hyphenated form, 36 characters.
#[verifier::external_body]
pub(crate) fn random_id() -> (r: String)
    ensures
        r@.len() == 36,
{
    uuid::Uuid::new_v4().to_string()
}

/// Relies on whoami::username: the login name of the current user.
#[verifier::external_body]
pub(crate) fn login_name() -> (r: String) {
    whoami::username()
}

/// Relies on whoami::realname: the full name of the current user.
#[verifier::external_body]
pub(crate) fn real_name() -> (r: String) {
    whoami::realname()
}

} // verus!
