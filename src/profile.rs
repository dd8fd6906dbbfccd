//! The shell wrapper that the manager installs into a PowerShell profile: the
//! script text, and the test that tells whether a profile already has it.

use vstd::prelude::*;
use vstd::string::*;

verus! {

/// `pat` occurs in `s`.
pub open spec fn has_substring(s: Seq<char>, pat: Seq<char>) -> bool {
    exists|i: int| 0 <= i <= s.len() - pat.len() && #[trigger] s.subrange(i, i + pat.len()) == pat
}

/// Relies on `str::contains`: true exactly when `pat` occurs in `s`.
#[verifier::external_body]
fn contains(s: &str, pat: &str) -> (r: bool)
    ensures
        r == has_substring(s@, pat@),
{
    s.contains(pat)
}

/// The comment that marks the wrapper.
pub open spec fn marker_text() -> Seq<char> {
    "# Proxy CLI Wrapper"@
}

/// The function the wrapper defines.
pub open spec fn function_text() -> Seq<char> {
    "function proxy"@
}

/// A profile holds the wrapper when it has both its marker and its function.
pub open spec fn holds_wrapper(content: Seq<char>) -> bool {
    has_substring(content, marker_text()) && has_substring(content, function_text())
}

/// Whether the profile `content` already holds the wrapper.
pub fn is_installed(content: &str) -> (r: bool)
    ensures
        r == holds_wrapper(content@),
{
    contains(content, "# Proxy CLI Wrapper") && contains(content, "function proxy")
}

/// `s` with every backslash doubled, as a PowerShell string needs it.
pub open spec fn escaped(s: Seq<char>) -> Seq<char>
    decreases s.len(),
{
    if s.len() == 0 {
        Seq::empty()
    } else {
        escaped(s.drop_last()) + if s.last() == '\\' {
            seq!['\\', '\\']
        } else {
            seq![s.last()]
        }
    }
}

/// Doubles every backslash of `s`.
pub fn escape_backslashes(s: &str) -> (r: String)
    ensures
        r@ == escaped(s@),
{
    let n = s.unicode_len();
    let mut out = String::new();
    let mut i: usize = 0;
    while i < n
        invariant
            n == s@.len(),
            i <= n,
            out@ == escaped(s@.subrange(0, i as int)),
        decreases n - i,
    {
        let one = s.substring_char(i, i + 1);
        assert(s@.subrange(0, i + 1).drop_last() =~= s@.subrange(0, i as int));
        if s.get_char(i) == '\\' {
            out.append(one);
        }
        out.append(one);
        proof {
            assert(one@ =~= seq![s@[i as int]]);
            assert(out@ =~= escaped(s@.subrange(0, i + 1)));
        }
        i = i + 1;
    }
    assert(s@.subrange(0, n as int) =~= s@);
    out
}

/// The script before the path of the program.
pub open spec fn script_head() -> Seq<char> {
    "\n# Proxy CLI Wrapper\nfunction proxy {\n    $binaryPath = \""@
}

/// The script after the path of the program.
pub open spec fn script_tail() -> Seq<char> {
    "\"\n    \n    if (-not (Test-Path $binaryPath)) {\n        Write-Error \"Binary not found at $binaryPath\"\n        return\n    }\n\n    $output = & $binaryPath\n\n    $output | ForEach-Object {\n        if ($_ -match \"^#SET_PROXY:(.+)$\") {\n            $proxyUrl = $matches[1]\n            $env:HTTP_PROXY = $proxyUrl\n            $env:HTTPS_PROXY = $proxyUrl\n            Write-Host \"Proxy set to $proxyUrl\" -ForegroundColor Green\n        }\n        elseif ($_ -eq \"#CLEAR_PROXY\") {\n            $env:HTTP_PROXY = \"\"\n            $env:HTTPS_PROXY = \"\"\n            Write-Host \"Proxy cleared\" -ForegroundColor Yellow\n        }\n    }\n}\n"@
}

/// The wrapper script for the program at `exe_path`: it runs the program and
/// applies the line it prints to the shell's own proxy variables.
pub fn wrapper_script(exe_path: &str) -> (r: String)
    ensures
        r@ == script_head() + exe_path@ + script_tail(),
{
    let mut script = String::from_str("\n# Proxy CLI Wrapper\nfunction proxy {\n    $binaryPath = \"");
    script.append(exe_path);
    script.append("\"\n    \n    if (-not (Test-Path $binaryPath)) {\n        Write-Error \"Binary not found at $binaryPath\"\n        return\n    }\n\n    $output = & $binaryPath\n\n    $output | ForEach-Object {\n        if ($_ -match \"^#SET_PROXY:(.+)$\") {\n            $proxyUrl = $matches[1]\n            $env:HTTP_PROXY = $proxyUrl\n            $env:HTTPS_PROXY = $proxyUrl\n            Write-Host \"Proxy set to $proxyUrl\" -ForegroundColor Green\n        }\n        elseif ($_ -eq \"#CLEAR_PROXY\") {\n            $env:HTTP_PROXY = \"\"\n            $env:HTTPS_PROXY = \"\"\n            Write-Host \"Proxy cleared\" -ForegroundColor Yellow\n        }\n    }\n}\n");
    script
}

/// A profile to which the wrapper was appended counts as installed, so a
/// second run does not append it again.
pub proof fn lemma_installed_after_append(before: Seq<char>, exe_path: Seq<char>)
    ensures
        holds_wrapper(before + (script_head() + exe_path + script_tail())),
{
    reveal_strlit("\n# Proxy CLI Wrapper\nfunction proxy {\n    $binaryPath = \"");
    reveal_strlit("# Proxy CLI Wrapper");
    reveal_strlit("function proxy");
    let s = before + (script_head() + exe_path + script_tail());
    let b = before.len() as int;
    assert(s.subrange(b + 1, b + 1 + marker_text().len()) =~= marker_text());
    assert(s.subrange(b + 21, b + 21 + function_text().len()) =~= function_text());
}

} // verus!
