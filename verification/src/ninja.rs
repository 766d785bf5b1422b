//! The script emitter: the fixed preamble of a build script, and the
//! script as a whole.
//!
//! A script declares every rule before the first edge that uses one, so the
//! preamble always comes first and in full.

use vstd::prelude::*;

use crate::artifact::ArtifactView;
use crate::edges::{rule_name, scope_rules, Rule};
use crate::rules::genrules_scope;
use crate::scope::Scope;

verus! {

/// The compiler that the script uses unless told otherwise.
pub open spec fn default_cc() -> Seq<char> {
    "gcc"@
}

/// The compiler flags that the script uses unless told otherwise.
pub open spec fn default_cflags() -> Seq<char> {
    "-g -Wall "@
}

/// The global variables of a script: the build directory, the compiler and
/// its flags, closed by an empty line.
pub open spec fn globals(cc: Seq<char>, cflags: Seq<char>) -> Seq<char> {
    "builddir = build\n"@ + "cc = "@ + cc + "\n"@ + "cflags = "@ + cflags + "\n"@ + "\n"@
}

/// The command template of a rule.
pub open spec fn rule_command(rule: Rule) -> Seq<char> {
    match rule {
        Rule::Cc => "$cc -MMD -MT $out -MF $out.d $cflags -c $in -o $out"@,
        Rule::Ar => "$ar rcs $out $in"@,
        Rule::Link => "$cc -o $out $in $ldflags"@,
        Rule::LinkSo => "$cc -shared -o $out $in $ldflags"@,
    }
}

/// What a rule declares about dependency tracking: the compile rule names
/// the dependency file that the compiler writes and its format, the other
/// rules declare nothing.
pub open spec fn rule_dependencies(rule: Rule) -> Seq<char> {
    match rule {
        Rule::Cc => "  depfile = $out.d\n  deps = gcc\n"@,
        Rule::Ar => Seq::empty(),
        Rule::Link => Seq::empty(),
        Rule::LinkSo => Seq::empty(),
    }
}

/// The progress message of a rule.
pub open spec fn rule_description(rule: Rule) -> Seq<char> {
    match rule {
        Rule::Cc => "CC      $in"@,
        Rule::Ar => "AR      $out"@,
        Rule::Link => "LINK    $out"@,
        Rule::LinkSo => "LINKSO  $out"@,
    }
}

/// The block that declares a rule, closed by an empty line.
pub open spec fn rule_block(rule: Rule) -> Seq<char> {
    "rule "@ + rule_name(rule) + "\n"@ + "  command = "@ + rule_command(rule) + "\n"@
        + rule_dependencies(rule) + "  description = "@ + rule_description(rule) + "\n"@ + "\n"@
}

/// The preamble of a script: the global variables, then the blocks of the
/// four rules.
pub open spec fn preamble(cc: Seq<char>, cflags: Seq<char>) -> Seq<char> {
    globals(cc, cflags) + rule_block(Rule::Cc) + rule_block(Rule::Ar) + rule_block(Rule::Link)
        + rule_block(Rule::LinkSo)
}

/// The build script of a scope: the preamble with the default compiler and
/// flags, then the rules of the scope's targets.
pub open spec fn ninja_file(artifacts: Seq<ArtifactView>) -> Seq<char> {
    preamble(default_cc(), default_cflags()) + scope_rules(artifacts)
}

impl Rule {
    /// The command template of the rule.
    pub fn command(self) -> (command: &'static str)
        ensures
            command@ == rule_command(self),
    {
        match self {
            Rule::Cc => "$cc -MMD -MT $out -MF $out.d $cflags -c $in -o $out",
            Rule::Ar => "$ar rcs $out $in",
            Rule::Link => "$cc -o $out $in $ldflags",
            Rule::LinkSo => "$cc -shared -o $out $in $ldflags",
        }
    }

    /// What the rule declares about dependency tracking.
    pub fn dependencies(self) -> (dependencies: &'static str)
        ensures
            dependencies@ == rule_dependencies(self),
    {
        proof {
            reveal_strlit("");
            assert(""@ =~= Seq::<char>::empty());
        }
        match self {
            Rule::Cc => "  depfile = $out.d\n  deps = gcc\n",
            Rule::Ar => "",
            Rule::Link => "",
            Rule::LinkSo => "",
        }
    }

    /// The progress message of the rule.
    pub fn description(self) -> (description: &'static str)
        ensures
            description@ == rule_description(self),
    {
        match self {
            Rule::Cc => "CC      $in",
            Rule::Ar => "AR      $out",
            Rule::Link => "LINK    $out",
            Rule::LinkSo => "LINKSO  $out",
        }
    }
}

/// Appends the block that declares `rule` to `out`.
pub fn genrule(out: &mut String, rule: Rule)
    ensures
        final(out)@ == old(out)@ + rule_block(rule),
{
    out.append("rule ");
    out.append(rule.name());
    out.append("\n");
    out.append("  command = ");
    out.append(rule.command());
    out.append("\n");
    out.append(rule.dependencies());
    out.append("  description = ");
    out.append(rule.description());
    out.append("\n");
    out.append("\n");
    assert(out@ =~= old(out)@ + rule_block(rule));
}

/// Appends the preamble to `out`, with `cc` as the compiler and `cflags` as
/// its flags.
pub fn genpreamble(out: &mut String, cc: &str, cflags: &str)
    ensures
        final(out)@ == old(out)@ + preamble(cc@, cflags@),
{
    out.append("builddir = build\n");
    out.append("cc = ");
    out.append(cc);
    out.append("\n");
    out.append("cflags = ");
    out.append(cflags);
    out.append("\n");
    out.append("\n");
    assert(out@ =~= old(out)@ + globals(cc@, cflags@));
    genrule(out, Rule::Cc);
    genrule(out, Rule::Ar);
    genrule(out, Rule::Link);
    genrule(out, Rule::LinkSo);
    assert(out@ =~= old(out)@ + preamble(cc@, cflags@));
}

/// The text of the build script for `top_scope`: the preamble, then the
/// rules of the targets declared in the scope itself.
pub fn make_ninja_file(top_scope: &Scope) -> (file: String)
    ensures
        file@ == ninja_file(top_scope@.artifacts),
{
    let mut file = String::new();
    genpreamble(&mut file, "gcc", "-g -Wall ");
    genrules_scope(&mut file, top_scope);
    assert(file@ =~= ninja_file(top_scope@.artifacts));
    file
}

} // verus!
