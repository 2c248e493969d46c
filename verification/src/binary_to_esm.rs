//! Binary content as a module that decodes it with a helper of the runtime.
use vstd::prelude::*;
use vstd::string::*;

verus! {

/// Where the emitted code is meant to run.
#[derive(Clone, Copy, Debug, PartialEq, Eq, Structural)]
pub enum Platform {
    Node,
    Browser,
    Neutral,
}

/// The name of the runtime's decoder for `platform`.
pub open spec fn to_binary_helper(platform: Platform) -> Seq<char> {
    if platform == Platform::Node {
        "__toBinaryNode"@
    } else {
        "__toBinary"@
    }
}

/// The module that imports the decoder and exports what it makes of
/// `base64`.
pub open spec fn binary_module(
    base64: Seq<char>,
    platform: Platform,
    runtime_resource_id: Seq<char>,
) -> Seq<char> {
    "import {"@ + to_binary_helper(platform) + "} from '"@ + runtime_resource_id
        + "'; export default "@ + to_binary_helper(platform) + "('"@ + base64 + "')"@
}

/// The module whose default export is the bytes that `base64` encodes,
/// decoded by the runtime's helper for `platform`. It never fails.
pub fn binary_to_esm(base64: &str, platform: Platform, runtime_resource_id: &str) -> (r: Result<
    String,
    anyhow::Error,
>)
    ensures
        r matches Ok(module) && module@ == binary_module(base64@, platform, runtime_resource_id@),
{
    let to_binary = match platform {
        Platform::Node => "__toBinaryNode",
        _ => "__toBinary",
    };
    let mut module = String::new();
    module.append("import {");
    module.append(to_binary);
    module.append("} from '");
    module.append(runtime_resource_id);
    module.append("'; export default ");
    module.append(to_binary);
    module.append("('");
    module.append(base64);
    module.append("')");
    Ok(module)
}

} // verus!
