//! The table of known libraries: for each name, the shared object to open and
//! the three symbols to look up in it.

use vstd::prelude::*;
use vstd::string::*;

verus! {

/// The names of the three exported functions of a library, each of which
/// takes nothing and returns one native string.
#[derive(Debug, Clone, PartialEq, Eq)]
pub struct SymbolNames {
    pub version: String,
    pub hash: String,
    pub build_time: String,
}

/// A [`SymbolNames`] as sequences of characters.
pub struct SymbolNamesView {
    pub version: Seq<char>,
    pub hash: Seq<char>,
    pub build_time: Seq<char>,
}

impl View for SymbolNames {
    type V = SymbolNamesView;

    open spec fn view(&self) -> SymbolNamesView {
        SymbolNamesView {
            version: self.version@,
            hash: self.hash@,
            build_time: self.build_time@,
        }
    }
}

/// One entry of the table: the file name of a shared object and the symbols
/// that it exports.
#[derive(Debug, Clone, PartialEq, Eq)]
pub struct LibraryEntry {
    pub file_name: String,
    pub symbols: SymbolNames,
}

/// A [`LibraryEntry`] as sequences of characters.
pub struct LibraryEntryView {
    pub file_name: Seq<char>,
    pub symbols: SymbolNamesView,
}

impl View for LibraryEntry {
    type V = LibraryEntryView;

    open spec fn view(&self) -> LibraryEntryView {
        LibraryEntryView { file_name: self.file_name@, symbols: self.symbols@ }
    }
}

/// The plain symbol names, shared by the libraries of the NPU tools.
pub open spec fn npu_tools_symbols() -> SymbolNamesView {
    SymbolNamesView {
        version: "version"@,
        hash: "git_short_hash"@,
        build_time: "build_timestamp"@,
    }
}

/// The symbol names of the compiler, which carry its own prefix.
pub open spec fn compiler_symbols() -> SymbolNamesView {
    SymbolNamesView { version: "fc_version"@, hash: "fc_revision"@, build_time: "fc_buildtime"@ }
}

/// The entry of the NPU tools library called `libname`: the file is the name
/// with `.so` behind it.
pub open spec fn npu_tools_entry(libname: Seq<char>) -> LibraryEntryView {
    LibraryEntryView { file_name: libname + ".so"@, symbols: npu_tools_symbols() }
}

/// The entry of the compiler library.
pub open spec fn compiler_entry() -> LibraryEntryView {
    LibraryEntryView { file_name: "libfuriosa_compiler.so"@, symbols: compiler_symbols() }
}

/// `name` is one of the three names that the table knows.
pub open spec fn recognized(name: Seq<char>) -> bool {
    name == "libhal"@ || name == "libruntime"@ || name == "libcompiler"@
}

/// The table itself: the entry that belongs to `name`, if it has one.
pub open spec fn lookup(name: Seq<char>) -> Option<LibraryEntryView> {
    if name == "libhal"@ {
        Some(npu_tools_entry("libfuriosa_hal"@))
    } else if name == "libruntime"@ {
        Some(npu_tools_entry("libfuriosa_runtime"@))
    } else if name == "libcompiler"@ {
        Some(compiler_entry())
    } else {
        None
    }
}

/// The entry of a library of the NPU tools, from the name of its shared
/// object without the `.so`.
pub fn npu_tools_lib(libname: &str) -> (entry: LibraryEntry)
    ensures
        entry@ == npu_tools_entry(libname@),
{
    LibraryEntry {
        file_name: String::from_str(libname).concat(".so"),
        symbols: SymbolNames {
            version: String::from_str("version"),
            hash: String::from_str("git_short_hash"),
            build_time: String::from_str("build_timestamp"),
        },
    }
}

/// The entry of the compiler library.
pub fn libcompiler() -> (entry: LibraryEntry)
    ensures
        entry@ == compiler_entry(),
{
    LibraryEntry {
        file_name: String::from_str("libfuriosa_compiler.so"),
        symbols: SymbolNames {
            version: String::from_str("fc_version"),
            hash: String::from_str("fc_revision"),
            build_time: String::from_str("fc_buildtime"),
        },
    }
}

/// Looks `name` up in the table. Only the three known names have an entry;
/// for any other there is none, and nothing is to be opened.
pub fn resolve(name: &str) -> (entry: Option<LibraryEntry>)
    ensures
        entry is Some <==> recognized(name@),
        entry matches Some(e) ==> lookup(name@) == Some(e@),
        entry is None ==> lookup(name@) is None,
{
    let name = String::from_str(name);
    if name == String::from_str("libhal") {
        Some(npu_tools_lib("libfuriosa_hal"))
    } else if name == String::from_str("libruntime") {
        Some(npu_tools_lib("libfuriosa_runtime"))
    } else if name == String::from_str("libcompiler") {
        Some(libcompiler())
    } else {
        None
    }
}

impl LibraryEntry {
    /// What is reported when the shared object cannot be opened: the file
    /// name that was tried, followed by the words that it was not found.
    pub fn not_found_message(&self) -> (message: String)
        ensures
            message@ == self@.file_name + " not found"@,
            self@.file_name.is_prefix_of(message@),
    {
        self.file_name.clone().concat(" not found")
    }
}

/// The table has an entry for each of the three known names and for no other
/// name, and the entries are these: `libhal` and `libruntime` are libraries of
/// the NPU tools with the plain symbol names, `libcompiler` is the compiler
/// with its prefixed ones, and each lives in a shared object of its own.
pub proof fn lemma_lookup_table(name: Seq<char>)
    ensures
        lookup(name) is Some <==> recognized(name),
        name == "libhal"@ ==> lookup(name)->0.file_name == "libfuriosa_hal.so"@,
        name == "libhal"@ ==> lookup(name)->0.symbols == npu_tools_symbols(),
        name == "libruntime"@ ==> lookup(name)->0.file_name == "libfuriosa_runtime.so"@,
        name == "libruntime"@ ==> lookup(name)->0.symbols == npu_tools_symbols(),
        name == "libcompiler"@ ==> lookup(name)->0.file_name == "libfuriosa_compiler.so"@,
        name == "libcompiler"@ ==> lookup(name)->0.symbols == compiler_symbols(),
{
    reveal_strlit("libhal");
    reveal_strlit("libruntime");
    reveal_strlit("libcompiler");
    reveal_strlit(".so");
    reveal_strlit("libfuriosa_hal");
    reveal_strlit("libfuriosa_runtime");
    reveal_strlit("libfuriosa_hal.so");
    reveal_strlit("libfuriosa_runtime.so");
    assert("libhal"@.len() == 6);
    assert("libruntime"@.len() == 10);
    assert("libcompiler"@.len() == 11);
    assert("libfuriosa_hal"@ + ".so"@ =~= "libfuriosa_hal.so"@);
    assert("libfuriosa_runtime"@ + ".so"@ =~= "libfuriosa_runtime.so"@);
}

/// Two different known names never lead to the same entry: their shared
/// objects differ.
pub proof fn lemma_entries_distinct(a: Seq<char>, b: Seq<char>)
    requires
        recognized(a),
        recognized(b),
        a != b,
    ensures
        lookup(a) is Some,
        lookup(b) is Some,
        lookup(a)->0.file_name != lookup(b)->0.file_name,
        lookup(a) != lookup(b),
{
    lemma_lookup_table(a);
    lemma_lookup_table(b);
    reveal_strlit("libfuriosa_hal.so");
    reveal_strlit("libfuriosa_runtime.so");
    reveal_strlit("libfuriosa_compiler.so");
    assert("libfuriosa_hal.so"@.len() == 17);
    assert("libfuriosa_runtime.so"@.len() == 21);
    assert("libfuriosa_compiler.so"@.len() == 22);
}

/// The two naming conventions share no symbol name, and within each the three
/// names differ, so that no symbol is looked up in place of another.
pub proof fn lemma_symbols_distinct()
    ensures
        npu_tools_symbols().version != npu_tools_symbols().hash,
        npu_tools_symbols().version != npu_tools_symbols().build_time,
        npu_tools_symbols().hash != npu_tools_symbols().build_time,
        compiler_symbols().version != compiler_symbols().hash,
        compiler_symbols().version != compiler_symbols().build_time,
        compiler_symbols().hash != compiler_symbols().build_time,
        npu_tools_symbols() != compiler_symbols(),
{
    reveal_strlit("version");
    reveal_strlit("git_short_hash");
    reveal_strlit("build_timestamp");
    reveal_strlit("fc_version");
    reveal_strlit("fc_revision");
    reveal_strlit("fc_buildtime");
    assert("version"@.len() == 7);
    assert("git_short_hash"@.len() == 14);
    assert("build_timestamp"@.len() == 15);
    assert("fc_version"@[3] != "fc_revision"@[3]);
    assert("fc_version"@[3] != "fc_buildtime"@[3]);
    assert("fc_revision"@[3] != "fc_buildtime"@[3]);
}

} // verus!
