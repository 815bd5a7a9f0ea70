//! The zsh completion-script template.
//!
//! `gen_zsh_cmd_completion` fills a fixed shell-script template with a
//! command's name and the two flags that print its version and its own
//! completion script. The emitted script caches the generated completion
//! file and regenerates it lazily whenever the command's version changes.
//! Probing that the command exists and answers those flags is left to the
//! caller: the template itself is a pure function of its three inputs.

use vstd::prelude::*;
use vstd::string::StringExecFns;

verus! {

/// The filled template, piece by piece, in emission order.
pub open spec fn zsh_cmd_completion_text(
    name: Seq<char>,
    ver_opt: Seq<char>,
    comp_opt: Seq<char>,
) -> Seq<char> {
    "if (( $+commands["@ + name
        + "] )); then\n# remove old generated completion file\ncommand rm -f \"${0:A:h}/_"@ + name
        + "\"\n\nver=\"$("@ + name + " "@ + ver_opt + " 2>/dev/null)\"\nver_file=\"$ZSH_CACHE_DIR/"@
        + name + "_version\"\ncomp_file=\"$ZSH_CACHE_DIR/completions/_"@ + name
        + "\"\n\nmkdir -p \"${comp_file:h}\"\n(( ${fpath[(Ie)${comp_file:h}]} )) || fpath=(\"${comp_file:h}\" $fpath)\n\nif [[ ! -f \"$comp_file\" || ! -f \"$ver_file\" || \"$ver\" != \"$(< \"$ver_file\")\" ]]; then\n    "@
        + name + " "@ + comp_opt
        + " >| \"$comp_file\"\n    echo \"$ver\" >| \"$ver_file\"\nfi\n\ndeclare -A _comps\nautoload -Uz _"@
        + name + "\n_comps["@ + name + "]=_"@ + name + "\n\nunset ver ver_file comp_file\nfi"@
}

/// Emits the cache-and-regenerate zsh completion snippet for the command
/// `name`, whose version the shell reads with `name ver_opt` and whose
/// completion script it reads with `name comp_opt`.
pub fn gen_zsh_cmd_completion(name: &str, ver_opt: &str, comp_opt: &str) -> (r: String)
    ensures
        r@ == zsh_cmd_completion_text(name@, ver_opt@, comp_opt@),
{
    let mut s = String::new();
    s.append("if (( $+commands[");
    s.append(name);
    s.append("] )); then\n# remove old generated completion file\ncommand rm -f \"${0:A:h}/_");
    s.append(name);
    s.append("\"\n\nver=\"$(");
    s.append(name);
    s.append(" ");
    s.append(ver_opt);
    s.append(" 2>/dev/null)\"\nver_file=\"$ZSH_CACHE_DIR/");
    s.append(name);
    s.append("_version\"\ncomp_file=\"$ZSH_CACHE_DIR/completions/_");
    s.append(name);
    s.append(
        "\"\n\nmkdir -p \"${comp_file:h}\"\n(( ${fpath[(Ie)${comp_file:h}]} )) || fpath=(\"${comp_file:h}\" $fpath)\n\nif [[ ! -f \"$comp_file\" || ! -f \"$ver_file\" || \"$ver\" != \"$(< \"$ver_file\")\" ]]; then\n    ",
    );
    s.append(name);
    s.append(" ");
    s.append(comp_opt);
    s.append(" >| \"$comp_file\"\n    echo \"$ver\" >| \"$ver_file\"\nfi\n\ndeclare -A _comps\nautoload -Uz _");
    s.append(name);
    s.append("\n_comps[");
    s.append(name);
    s.append("]=_");
    s.append(name);
    s.append("\n\nunset ver ver_file comp_file\nfi");
    s
}

} // verus!
