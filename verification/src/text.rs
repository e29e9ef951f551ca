//! The pascal-case name transform and the rendered source texts.

use vstd::prelude::*;
use vstd::string::StrSliceExecFns;
use vstd::string::StringExecFns;

verus! {

/// The uppercase mapping of one character, as the Unicode character
/// database gives it: one or more characters, depending on the input
/// character alone.
pub uninterp spec fn upper_of(c: char) -> Seq<char>;

/// Relies on char::to_uppercase: yields the non-locale-dependent Unicode
/// uppercase mapping of the character, one or more characters, a function
/// of the character alone.
#[verifier::external_body]
fn char_to_upper(c: char) -> (r: String)
    ensures
        r@ == upper_of(c),
        r@.len() >= 1,
{
    c.to_uppercase().collect()
}

/// One pass of the pascal-case transform over the remaining characters.
/// `at_start` records whether the next character begins a new segment
/// (true at the front of the string and right after each underscore).
/// An underscore is dropped; a segment-starting character contributes its
/// uppercase mapping; every other character is kept as it is.
pub open spec fn pascal_rec(s: Seq<char>, at_start: bool) -> Seq<char>
    decreases s.len(),
{
    if s.len() == 0 {
        Seq::empty()
    } else if s[0] == '_' {
        pascal_rec(s.skip(1), true)
    } else if at_start {
        upper_of(s[0]) + pascal_rec(s.skip(1), false)
    } else {
        seq![s[0]] + pascal_rec(s.skip(1), false)
    }
}

/// The pascal-case form of a name: split on underscore, upper-case the
/// first character of each segment, concatenate.  Empty segments (from
/// leading, trailing or repeated underscores) contribute nothing.
pub open spec fn pascal_of(s: Seq<char>) -> Seq<char> {
    pascal_rec(s, true)
}

/// Pascal-cases a feature name: segments between underscores have their
/// first character upper-cased, and the underscores themselves are dropped.
pub fn to_pascal_case(s: &str) -> (r: String)
    ensures
        r@ == pascal_of(s@),
{
    let n: usize = s.unicode_len();
    let mut r = String::new();
    let mut at_start: bool = true;
    let mut i: usize = 0;
    proof {
        assert(s@.skip(0) =~= s@);
        assert(r@ + pascal_of(s@) =~= pascal_of(s@));
    }
    while i < n
        invariant
            n == s@.len(),
            i <= n,
            r@ + pascal_rec(s@.skip(i as int), at_start) == pascal_of(s@),
        decreases n - i,
    {
        let c = s.get_char(i);
        proof {
            assert(s@.skip(i as int)[0] == s@[i as int]);
            assert(s@.skip(i as int).skip(1) =~= s@.skip(i as int + 1));
        }
        if c == '_' {
            at_start = true;
        } else if at_start {
            let up = char_to_upper(c);
            r.append(up.as_str());
            at_start = false;
            proof {
                assert(r@ + pascal_rec(s@.skip(i as int + 1), false) =~= pascal_of(s@));
            }
        } else {
            let piece = s.substring_char(i, i + 1);
            r.append(piece);
            proof {
                assert(s@.subrange(i as int, i as int + 1) =~= seq![s@[i as int]]);
                assert(r@ + pascal_rec(s@.skip(i as int + 1), false) =~= pascal_of(s@));
            }
        }
        i = i + 1;
    }
    proof {
        assert(s@.skip(n as int) =~= Seq::<char>::empty());
        assert(r@ + Seq::<char>::empty() =~= r@);
    }
    r
}

/// The full text of the generated page source for a feature name: the two
/// framework imports, then a `StatelessWidget` page class named after the
/// pascal-case form of the name with a route constant derived from the name
/// itself.
pub open spec fn page_content_of(n: Seq<char>) -> Seq<char> {
    let p = pascal_of(n) + "Page"@;
    "import 'package:flutter/material.dart';\nimport 'package:flutter_modular/flutter_modular.dart';\n\n/// ["@
        + p
        + "] the display page for this feature\nclass "@
        + p
        + " extends StatelessWidget {\n  /// ["@
        + p
        + "] constructor.\n  const "@
        + p
        + "({super.key});\n\n  /// [routeName] the route name for this page\n  static const routeName = '/"@
        + n
        + "';\n\n  /// our route, this should generally use the modular route, and\n  /// our basic route callable item\n  static void route() {\n    Modular.to.pushNamed(routeName);\n  }\n\n  @override\n  Widget build(BuildContext context) {\n    return const Scaffold(\n      body: Text(\n        routeName,\n      ),\n    );\n  }\n}"@
}

/// Renders the page source for a feature name.
pub fn generate_page_content(file_name: &str) -> (r: String)
    ensures
        r@ == page_content_of(file_name@),
{
    let mut p = to_pascal_case(file_name);
    p.append("Page");
    let mut r = String::from_str(
        "import 'package:flutter/material.dart';\nimport 'package:flutter_modular/flutter_modular.dart';\n\n/// [",
    );
    r.append(p.as_str());
    r.append("] the display page for this feature\nclass ");
    r.append(p.as_str());
    r.append(" extends StatelessWidget {\n  /// [");
    r.append(p.as_str());
    r.append("] constructor.\n  const ");
    r.append(p.as_str());
    r.append("({super.key});\n\n  /// [routeName] the route name for this page\n  static const routeName = '/");
    r.append(file_name);
    r.append("';\n\n  /// our route, this should generally use the modular route, and\n  /// our basic route callable item\n  static void route() {\n    Modular.to.pushNamed(routeName);\n  }\n\n  @override\n  Widget build(BuildContext context) {\n    return const Scaffold(\n      body: Text(\n        routeName,\n      ),\n    );\n  }\n}");
    proof {
        assert(r@ =~= page_content_of(file_name@));
    }
    r
}

/// The full text of the generated module source for a feature name: the
/// framework import, an import of the feature's own aggregator, then a
/// `Module` class that binds the feature's bloc and routes to its page.
pub open spec fn module_content_of(n: Seq<char>) -> Seq<char> {
    let x = pascal_of(n);
    let p = x + "Page"@;
    let m = x + "Module"@;
    "import 'package:flutter_modular/flutter_modular.dart';\nimport '"@
        + n
        + ".dart';\n\n/// ["@
        + m
        + "] is a [Module] that provides the application's dependencies.\nclass "@
        + m
        + " extends Module {\n  @override\n  void binds(Injector i) {\n    i.addLazySingleton<"@
        + x
        + "Bloc>(() => "@
        + x
        + "Bloc()..add(const "@
        + x
        + "Event.started()));\n  }\n\n  @override\n  void routes(RouteManager r) {\n    r.child(\n      '/',\n      child: (context) => const "@
        + p
        + "(),\n    );\n  }\n}"@
}

/// Renders the module source for a feature name.
pub fn generate_module_content(file_name: &str) -> (r: String)
    ensures
        r@ == module_content_of(file_name@),
{
    let x = to_pascal_case(file_name);
    let mut p = x.clone();
    p.append("Page");
    let mut m = x.clone();
    m.append("Module");
    let mut r = String::from_str(
        "import 'package:flutter_modular/flutter_modular.dart';\nimport '",
    );
    r.append(file_name);
    r.append(".dart';\n\n/// [");
    r.append(m.as_str());
    r.append("] is a [Module] that provides the application's dependencies.\nclass ");
    r.append(m.as_str());
    r.append(" extends Module {\n  @override\n  void binds(Injector i) {\n    i.addLazySingleton<");
    r.append(x.as_str());
    r.append("Bloc>(() => ");
    r.append(x.as_str());
    r.append("Bloc()..add(const ");
    r.append(x.as_str());
    r.append("Event.started()));\n  }\n\n  @override\n  void routes(RouteManager r) {\n    r.child(\n      '/',\n      child: (context) => const ");
    r.append(p.as_str());
    r.append("(),\n    );\n  }\n}");
    proof {
        assert(r@ =~= module_content_of(file_name@));
    }
    r
}

/// The full text of the feature's export aggregator: one export line for
/// the bloc, the widgets aggregator, the page and the module, and a
/// trailing comment inviting more lines.
pub open spec fn export_content_of(n: Seq<char>) -> Seq<char> {
    "export 'bloc/"@
        + n
        + "_bloc.dart';\n                export 'widgets/widgets.dart';\n                export '"@
        + n
        + "_page.dart';\n                export '"@
        + n
        + "_module.dart';\n                // Add more export lines as needed\n                "@
}

/// Renders the export aggregator for a feature name.
pub fn generate_export_content(file_name: &str) -> (r: String)
    ensures
        r@ == export_content_of(file_name@),
{
    let mut r = String::from_str("export 'bloc/");
    r.append(file_name);
    r.append("_bloc.dart';\n                export 'widgets/widgets.dart';\n                export '");
    r.append(file_name);
    r.append("_page.dart';\n                export '");
    r.append(file_name);
    r.append("_module.dart';\n                // Add more export lines as needed\n                ");
    proof {
        assert(r@ =~= export_content_of(file_name@));
    }
    r
}

/// The fixed text of the widgets aggregator placeholder file.
pub open spec fn widgets_content() -> Seq<char> {
    "/// export \"your_widget.dart\";"@
}

/// Renders the widgets aggregator placeholder.
pub fn generate_widgets_content() -> (r: String)
    ensures
        r@ == widgets_content(),
{
    String::from_str("/// export \"your_widget.dart\";")
}

/// The fixed help text that the `list` command prints.
pub open spec fn commands_text() -> Seq<char> {
    "Available commands:\n  modular <file_name> [--bloc] [--widgets] [--run]    Create a modular file\n    --bloc      Generate bloc files\n    --widgets   Generate widgets files\n    --run       Run build_runner after creating files\n  list                                                List available commands\n  help                                                Print help information"@
}

/// The help text listing the available commands.
pub fn available_commands_text() -> (r: String)
    ensures
        r@ == commands_text(),
{
    String::from_str(
        "Available commands:\n  modular <file_name> [--bloc] [--widgets] [--run]    Create a modular file\n    --bloc      Generate bloc files\n    --widgets   Generate widgets files\n    --run       Run build_runner after creating files\n  list                                                List available commands\n  help                                                Print help information",
    )
}

} // verus!
