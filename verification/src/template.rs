use vstd::prelude::*;
use vstd::string::StringExecFns;

use crate::errors::CliError;

verus! {

/// One file of the baked-in project template.
pub struct TemplateEntry {
    /// Path relative to the new project's root directory.
    pub path: String,
    /// The file's contents, still carrying the placeholder project name.
    pub contents: String,
}

/// A template is well formed when it has a manifest entry at the project
/// root.
pub open spec fn spec_template_wf(t: Seq<TemplateEntry>) -> bool {
    &&& t.len() > 0
    &&& exists|i: int| 0 <= i < t.len() && t[i].path@ == "Cargo.toml"@
}

/// The placeholder project name that the template's files carry; creating a
/// project rewrites it to the chosen name.
pub fn template_placeholder() -> (r: String)
    ensures
        r@ == "vexide-template"@,
{
    "vexide-template".to_owned()
}

/// The project template that ships with the tool, used when no template can
/// be fetched: a manifest, a program entry point, and an ignore file.
pub fn baked_in_template() -> (t: Vec<TemplateEntry>)
    ensures
        spec_template_wf(t@),
{
    let mut t: Vec<TemplateEntry> = Vec::new();
    t.push(
        TemplateEntry {
            path: "Cargo.toml".to_owned(),
            contents:
                "[package]\nname = \"vexide-template\"\nversion = \"0.1.0\"\nedition = \"2021\"\n\n[dependencies]\nvexide = \"0.7\"\n".to_owned(),
        },
    );
    t.push(
        TemplateEntry {
            path: "src/main.rs".to_owned(),
            contents:
                "#![no_main]\n\nuse vexide::prelude::*;\n\n#[vexide::main]\nasync fn main(peripherals: Peripherals) {\n    println!(\"Hello from vexide-template!\");\n}\n".to_owned(),
        },
    );
    t.push(
        TemplateEntry { path: ".gitignore".to_owned(), contents: "/target\n".to_owned() },
    );
    proof {
        assert(t@[0].path@ == "Cargo.toml"@);
    }
    t
}

/// The directory a new project is created in: the given base path when no
/// project name was passed, else the name joined under the base path.
pub fn project_dir(path: String, name: &Option<String>) -> (r: String)
    ensures
        name matches Some(n) ==> r@ == path@ + "/"@ + n@,
        name is None ==> r@ == path@,
{
    match name {
        Option::Some(n) => {
            let mut d = path;
            d.append("/");
            d.append(n.as_str());
            d
        },
        Option::None => path,
    }
}

/// The new project's name: the explicitly passed name, else the name of the
/// directory being filled.
pub fn project_name(name: Option<String>, dir_name: String) -> (r: String)
    ensures
        name matches Some(n) ==> r@ == n@,
        name is None ==> r@ == dir_name@,
{
    match name {
        Option::Some(n) => n,
        Option::None => dir_name,
    }
}

/// Refuses to scaffold into a directory that already holds entries.
/// `existing_entries` is the number of entries the target directory already
/// holds, or nothing when the directory does not exist yet (which is fine:
/// it will be created).
pub fn validate_project_dir(existing_entries: Option<usize>, dir: String) -> (r: Result<
    (),
    CliError,
>)
    ensures
        existing_entries matches Some(c) ==> (c > 0 ==> (
        r matches Err(CliError::ProjectDirFull(d)) && d@ == dir@)),
        existing_entries matches Some(c) ==> (c == 0 ==> r is Ok),
        existing_entries is None ==> r is Ok,
{
    match existing_entries {
        Option::Some(c) => if c > 0 {
            Err(CliError::ProjectDirFull(dir))
        } else {
            Ok(())
        },
        Option::None => Ok(()),
    }
}

/// The byte string with every occurrence of `from` replaced by `to`,
/// scanning left to right without overlap. An empty pattern leaves the text
/// unchanged.
pub open spec fn spec_replace_all(hay: Seq<u8>, from: Seq<u8>, to: Seq<u8>) -> Seq<u8>
    decreases hay.len(),
{
    if from.len() == 0 || hay.len() < from.len() {
        hay
    } else if hay.take(from.len() as int) == from {
        to + spec_replace_all(hay.skip(from.len() as int), from, to)
    } else {
        seq![hay[0]] + spec_replace_all(hay.drop_first(), from, to)
    }
}

/// Whether `from` occurs in `hay` starting at position `i`.
fn segment_matches(hay: &Vec<u8>, i: usize, from: &Vec<u8>) -> (r: bool)
    requires
        i + from@.len() <= hay@.len(),
    ensures
        r == (hay@.subrange(i as int, i as int + from@.len() as int) == from@),
{
    let m = from.len();
    let n = hay.len();
    let mut j: usize = 0;
    while j < m
        invariant
            j <= m,
            m == from@.len(),
            n == hay@.len(),
            i + m <= n,
            forall|k: int| 0 <= k < j ==> hay@[i + k] == from@[k],
        decreases m - j,
    {
        if hay[i + j] != from[j] {
            proof {
                assert(hay@.subrange(i as int, i as int + m as int)[j as int] == hay@[i + j]);
            }
            return false;
        }
        j += 1;
    }
    proof {
        assert(hay@.subrange(i as int, i as int + m as int) =~= from@);
    }
    true
}

/// Replaces every occurrence of `from` in `hay` by `to`, scanning left to
/// right without overlap. Used to rewrite the template's placeholder
/// project name in a scaffolded manifest.
pub fn replace_all(hay: &Vec<u8>, from: &Vec<u8>, to: &Vec<u8>) -> (r: Vec<u8>)
    requires
        from@.len() > 0,
    ensures
        r@ == spec_replace_all(hay@, from@, to@),
{
    let m = from.len();
    let mut out: Vec<u8> = Vec::new();
    let mut i: usize = 0;
    proof {
        assert(hay@.skip(0) =~= hay@);
        assert(Seq::<u8>::empty() + spec_replace_all(hay@, from@, to@) =~= spec_replace_all(
            hay@,
            from@,
            to@,
        ));
    }
    while i < hay.len()
        invariant
            m == from@.len(),
            m > 0,
            i <= hay@.len(),
            out@ + spec_replace_all(hay@.skip(i as int), from@, to@) == spec_replace_all(
                hay@,
                from@,
                to@,
            ),
        decreases hay@.len() - i,
    {
        let ghost rest = hay@.skip(i as int);
        let ghost out_before_step = out@;
        if m <= hay.len() - i && segment_matches(hay, i, from) {
            proof {
                assert(rest.take(m as int) =~= hay@.subrange(i as int, i as int + m as int));
                assert(rest.skip(m as int) =~= hay@.skip(i as int + m as int));
                assert(spec_replace_all(rest, from@, to@) == to@ + spec_replace_all(
                    hay@.skip(i as int + m as int),
                    from@,
                    to@,
                ));
            }
            let ghost out_before = out@;
            let mut j: usize = 0;
            while j < to.len()
                invariant
                    j <= to@.len(),
                    out@ == out_before + to@.take(j as int),
                decreases to@.len() - j,
            {
                out.push(to[j]);
                j += 1;
                proof {
                    assert(to@.take(j as int) =~= to@.take(j as int - 1) + seq![
                        to@[j as int - 1],
                    ]);
                    assert(out_before + to@.take(j as int - 1) + seq![to@[j as int - 1]]
                        =~= out_before + to@.take(j as int));
                }
            }
            proof {
                assert(to@.take(to@.len() as int) =~= to@);
                assert(out_before + to@ + spec_replace_all(hay@.skip(i as int + m as int), from@, to@)
                    =~= out_before + spec_replace_all(rest, from@, to@));
            }
            i += m;
        } else {
            proof {
                if m <= rest.len() {
                    assert(rest.take(m as int) =~= hay@.subrange(i as int, i as int + m as int));
                    assert(rest.take(m as int) != from@);
                    assert(rest.drop_first() =~= hay@.skip(i as int + 1));
                    assert(spec_replace_all(rest, from@, to@) == seq![rest[0]]
                        + spec_replace_all(hay@.skip(i as int + 1), from@, to@));
                } else {
                    assert(hay@.skip(i as int + 1) =~= rest.drop_first());
                    assert(spec_replace_all(rest, from@, to@) == rest);
                    assert(spec_replace_all(rest.drop_first(), from@, to@) == rest.drop_first());
                    assert(rest =~= seq![rest[0]] + rest.drop_first());
                }
                assert(rest[0] == hay@[i as int]);
            }
            out.push(hay[i]);
            i += 1;
            proof {
                assert(out@ =~= out_before_step + seq![rest[0]]);
                assert(out_before_step + seq![rest[0]] + spec_replace_all(
                    hay@.skip(i as int),
                    from@,
                    to@,
                ) =~= out_before_step + (seq![rest[0]] + spec_replace_all(
                    hay@.skip(i as int),
                    from@,
                    to@,
                )));
            }
        }
    }
    proof {
        assert(hay@.skip(i as int) =~= Seq::<u8>::empty());
        assert(spec_replace_all(hay@.skip(i as int), from@, to@) =~= Seq::<u8>::empty());
        assert(out@ =~= out@ + Seq::<u8>::empty());
    }
    out
}

} // verus!
