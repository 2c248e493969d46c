//! Binary content as a module that carries its own decoder.
use vstd::prelude::*;
use vstd::string::*;

verus! {

/// The decoder's source, the line that decodes `base64_source`, and the
/// export, each on lines of its own.
pub open spec fn templated_binary_module(template: Seq<char>, base64_source: Seq<char>) -> Seq<
    char,
> {
    template + "\n"@ + "const result = __toBinary(\""@ + base64_source + "\");"@ + "\n"@
        + "export default result;"@
}

/// The module that defines `__toBinary` by `template` and exports what it
/// makes of `base64_source`. It never fails.
pub fn binary_to_esm(template: &str, base64_source: &str) -> (r: Result<String, anyhow::Error>)
    ensures
        r matches Ok(module) && module@ == templated_binary_module(template@, base64_source@),
{
    let mut module = String::new();
    module.append(template);
    module.append("\n");
    module.append("const result = __toBinary(\"");
    module.append(base64_source);
    module.append("\");");
    module.append("\n");
    module.append("export default result;");
    Ok(module)
}

} // verus!
