//! Loading a corpus: every source file parsed into a module, all or nothing.
use vstd::prelude::*;
use crate::syntax::{parse_suite, parsed_suite, Statement};

verus! {

/// The largest number of characters a source file may have, one less than this:
/// the parser counts the bytes of a source in 32 bits, and a character takes at
/// most four bytes.
pub const MAX_SOURCE_CHARS: usize = 0x4000_0000;

/// The message of a load that meets a source file too long to parse.
pub open spec fn too_long_message() -> Seq<char> {
    "source file is too long to parse"@
}

/// The outcome of loading the first `n` files, given the outcome of reading each
/// one: the parsed modules in order, or the first failure to read, to accept
/// the length of, or to parse a file.
pub open spec fn load_prefix(
    paths: Seq<String>,
    sources: Seq<Result<String, String>>,
    n: nat,
) -> Result<Seq<Seq<Statement>>, Seq<char>>
    decreases n,
{
    if n == 0 {
        Ok(Seq::empty())
    } else {
        match load_prefix(paths, sources, (n - 1) as nat) {
            Err(e) => Err(e),
            Ok(mods) => match sources[n - 1] {
                Err(e) => Err(e@),
                Ok(src) => if src@.len() >= MAX_SOURCE_CHARS {
                    Err(too_long_message())
                } else {
                    match parsed_suite(src@, paths[n - 1]@) {
                        Err(e) => Err(e),
                        Ok(m) => Ok(mods.push(m)),
                    }
                },
            },
        }
    }
}

/// The outcome of loading every file.
pub open spec fn load_outcome(paths: Seq<String>, sources: Seq<Result<String, String>>) -> Result<
    Seq<Seq<Statement>>,
    Seq<char>,
> {
    load_prefix(paths, sources, sources.len())
}

/// The modules of a loaded corpus, as sequences of statements.
pub open spec fn modules_view(mods: Seq<Vec<Statement>>) -> Seq<Seq<Statement>> {
    mods.map_values(|m: Vec<Statement>| m@)
}

/// Parses the text of each file, `sources[i]` being what reading `paths[i]`
/// gave. The first file that could not be read, has `MAX_SOURCE_CHARS`
/// characters or more, or could not be parsed fails the whole load with its
/// message; otherwise the modules come back in the order of the paths.
pub fn parse_python_files(paths: &Vec<String>, sources: &Vec<Result<String, String>>) -> (r: Result<
    Vec<Vec<Statement>>,
    String,
>)
    requires
        paths@.len() == sources@.len(),
    ensures
        match r {
            Ok(mods) => load_outcome(paths@, sources@) == Ok::<Seq<Seq<Statement>>, Seq<char>>(
                modules_view(mods@),
            ),
            Err(e) => load_outcome(paths@, sources@) == Err::<Seq<Seq<Statement>>, Seq<char>>(e@),
        },
{
    let mut modules: Vec<Vec<Statement>> = Vec::new();
    let mut i: usize = 0;
    assert(modules_view(modules@) =~= Seq::<Seq<Statement>>::empty());
    while i < paths.len()
        invariant
            0 <= i <= paths@.len(),
            paths@.len() == sources@.len(),
            load_prefix(paths@, sources@, i as nat) == Ok::<Seq<Seq<Statement>>, Seq<char>>(
                modules_view(modules@),
            ),
        decreases paths@.len() - i,
    {
        let ghost before = modules@;
        let text = match &sources[i] {
            Ok(t) => t,
            Err(e) => {
                proof {
                    lemma_error_persists(paths@, sources@, i as nat + 1, sources@.len());
                }
                return Err(e.clone());
            },
        };
        if text.as_str().unicode_len() >= MAX_SOURCE_CHARS {
            proof {
                lemma_error_persists(paths@, sources@, i as nat + 1, sources@.len());
            }
            return Err(String::from_str("source file is too long to parse"));
        }
        match parse_suite(text.as_str(), paths[i].as_str()) {
            Ok(stmts) => {
                modules.push(stmts);
                assert(modules_view(modules@) =~= modules_view(before).push(stmts@));
            },
            Err(e) => {
                proof {
                    lemma_error_persists(paths@, sources@, i as nat + 1, sources@.len());
                }
                return Err(e);
            },
        }
        i += 1;
    }
    Ok(modules)
}

/// A load in which one file could not be read fails as a whole.
pub proof fn lemma_unreadable_file_fails_load(
    paths: Seq<String>,
    sources: Seq<Result<String, String>>,
    k: int,
)
    requires
        paths.len() == sources.len(),
        0 <= k < sources.len(),
        sources[k] is Err,
    ensures
        load_outcome(paths, sources) is Err,
{
    lemma_failure_persists(paths, sources, k, sources.len());
}

/// Once a prefix of the load has failed, every longer prefix fails too.
proof fn lemma_failure_persists(
    paths: Seq<String>,
    sources: Seq<Result<String, String>>,
    k: int,
    n: nat,
)
    requires
        0 <= k < n <= sources.len(),
        sources[k] is Err,
    ensures
        load_prefix(paths, sources, n) is Err,
    decreases n,
{
    if n > k + 1 {
        lemma_failure_persists(paths, sources, k, (n - 1) as nat);
    }
}

/// A failed prefix of the load keeps its error to the end.
proof fn lemma_error_persists(
    paths: Seq<String>,
    sources: Seq<Result<String, String>>,
    k: nat,
    n: nat,
)
    requires
        k <= n <= sources.len(),
        load_prefix(paths, sources, k) is Err,
    ensures
        load_prefix(paths, sources, n) == load_prefix(paths, sources, k),
    decreases n,
{
    if n > k {
        lemma_error_persists(paths, sources, k, (n - 1) as nat);
    }
}

/// A successful load holds one module per path, in the order of the paths:
/// module `i` is what parsing the text of file `i` gave.
pub proof fn lemma_loaded_modules_follow_paths(
    paths: Seq<String>,
    sources: Seq<Result<String, String>>,
    n: nat,
)
    requires
        n <= sources.len(),
        load_prefix(paths, sources, n) is Ok,
    ensures
        ({
            let mods = load_prefix(paths, sources, n)->Ok_0;
            &&& mods.len() == n
            &&& forall|i: int|
                0 <= i < n ==> #[trigger] sources[i] is Ok && sources[i]->Ok_0@.len()
                    < MAX_SOURCE_CHARS && parsed_suite(
                    sources[i]->Ok_0@,
                    paths[i]@,
                ) == Ok::<Seq<Statement>, Seq<char>>(mods[i])
        }),
    decreases n,
{
    if n > 0 {
        lemma_loaded_modules_follow_paths(paths, sources, (n - 1) as nat);
    }
}

} // verus!
