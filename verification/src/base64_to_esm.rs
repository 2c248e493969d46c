//! A base64 text as a module that exports it.
use vstd::prelude::*;
use vstd::string::*;

verus! {

/// `anyhow::Error`, the failure type of the loaders' results. Nothing in it
/// is looked at.
#[verifier::external_type_specification]
#[verifier::external_body]
pub struct ExAnyhowError(anyhow::Error);

/// `export default '<source>';`
pub open spec fn base64_module(source: Seq<char>) -> Seq<char> {
    "export default '"@ + source + "';"@
}

/// The module whose default export is the text `source`. It never fails.
pub fn base64_to_esm(source: &str) -> (r: Result<String, anyhow::Error>)
    ensures
        r matches Ok(module) && module@ == base64_module(source@),
{
    let mut module = String::new();
    module.append("export default '");
    module.append(source);
    module.append("';");
    Ok(module)
}

} // verus!
