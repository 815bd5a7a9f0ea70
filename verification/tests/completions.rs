use dotfileutil::completions::gen_zsh_cmd_completion;

#[test]
fn poetry_completion_script() {
    let s = gen_zsh_cmd_completion("poetry", "--version", "completions zsh");
    let expected = r#"if (( $+commands[poetry] )); then
# remove old generated completion file
command rm -f "${0:A:h}/_poetry"

ver="$(poetry --version 2>/dev/null)"
ver_file="$ZSH_CACHE_DIR/poetry_version"
comp_file="$ZSH_CACHE_DIR/completions/_poetry"

mkdir -p "${comp_file:h}"
(( ${fpath[(Ie)${comp_file:h}]} )) || fpath=("${comp_file:h}" $fpath)

if [[ ! -f "$comp_file" || ! -f "$ver_file" || "$ver" != "$(< "$ver_file")" ]]; then
    poetry completions zsh >| "$comp_file"
    echo "$ver" >| "$ver_file"
fi

declare -A _comps
autoload -Uz _poetry
_comps[poetry]=_poetry

unset ver ver_file comp_file
fi"#;
    assert_eq!(s, expected);
}

#[test]
fn completion_script_carries_all_three_inputs() {
    let s = gen_zsh_cmd_completion("cargo", "-V", "--list");
    assert!(s.contains("$+commands[cargo]"));
    assert!(s.contains("cargo -V 2>/dev/null"));
    assert!(s.contains("cargo --list >| \"$comp_file\""));
    assert!(s.starts_with("if (( "));
    assert!(s.ends_with("\nfi"));
}
