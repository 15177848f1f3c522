//! The output line: which fields of a version record are shown, and how they
//! are laid out.

use vstd::prelude::*;
use vstd::string::*;
use crate::version::{VersionInfo, VersionInfoView};

verus! {

/// The fields that the user asked for, one flag each.
#[derive(Debug, Clone, Copy, PartialEq, Eq, Structural)]
pub struct Selection {
    pub version: bool,
    pub hash: bool,
    pub build_time: bool,
}

impl Selection {
    /// No flag is set: the user asked for nothing in particular.
    pub open spec fn is_empty(self) -> bool {
        !(self.version || self.hash || self.build_time)
    }

    /// The version is shown: it was asked for, or nothing was.
    pub open spec fn shows_version(self) -> bool {
        self.is_empty() || self.version
    }

    /// The hash is shown: it was asked for, or nothing was.
    pub open spec fn shows_hash(self) -> bool {
        self.is_empty() || self.hash
    }

    /// The build time is shown: it was asked for, or nothing was.
    pub open spec fn shows_build_time(self) -> bool {
        self.is_empty() || self.build_time
    }

    /// How many flags are set.
    pub open spec fn count(self) -> nat {
        (if self.version { 1nat } else { 0nat })
            + (if self.hash { 1nat } else { 0nat })
            + (if self.build_time { 1nat } else { 0nat })
    }
}

/// The fields that are shown, in the fixed order version, hash, build time.
pub open spec fn selected_fields(flags: Selection, info: VersionInfoView) -> Seq<Seq<char>> {
    let none = Seq::<Seq<char>>::empty();
    let first = if flags.shows_version() { none.push(info.version) } else { none };
    let second = if flags.shows_hash() { first.push(info.hash) } else { first };
    if flags.shows_build_time() { second.push(info.build_time) } else { second }
}

/// The fields one after the other, with one space between each two
/// neighbours and none before the first or after the last.
pub open spec fn join_with_space(fields: Seq<Seq<char>>) -> Seq<char>
    decreases fields.len(),
{
    if fields.len() == 0 {
        Seq::empty()
    } else if fields.len() == 1 {
        fields[0]
    } else {
        join_with_space(fields.drop_last()) + seq![' '] + fields.last()
    }
}

/// The line that is printed for `info` under `flags`, without its newline.
pub open spec fn version_line(flags: Selection, info: VersionInfoView) -> Seq<char> {
    join_with_space(selected_fields(flags, info))
}

/// Joining one more field: it follows the others after one space, or stands
/// alone where there are no others.
pub proof fn lemma_join_push(fields: Seq<Seq<char>>, field: Seq<char>)
    ensures
        fields.len() == 0 ==> join_with_space(fields.push(field)) == field,
        fields.len() > 0 ==> join_with_space(fields.push(field)) == join_with_space(fields)
            + seq![' '] + field,
{
    assert(fields.push(field).drop_last() =~= fields);
}

/// With no flag set, or with all three, the line holds every field: version,
/// hash and build time, in this order, with one space between each two.
pub proof fn lemma_all_fields(flags: Selection, info: VersionInfoView)
    requires
        flags.is_empty() || flags.count() == 3,
    ensures
        version_line(flags, info) == info.version + seq![' '] + info.hash + seq![' ']
            + info.build_time,
{
    reveal_with_fuel(join_with_space, 4);
    let all = seq![info.version, info.hash, info.build_time];
    assert(selected_fields(flags, info) =~= all);
    assert(all.drop_last() =~= seq![info.version, info.hash]);
    assert(all.drop_last().drop_last() =~= seq![info.version]);
}

/// With exactly one flag set, the line is that one field and nothing else:
/// no space stands before or after it.
pub proof fn lemma_single_field(flags: Selection, info: VersionInfoView)
    requires
        flags.count() == 1,
    ensures
        flags.version ==> version_line(flags, info) == info.version,
        flags.hash ==> version_line(flags, info) == info.hash,
        flags.build_time ==> version_line(flags, info) == info.build_time,
{
}

/// With exactly two flags set, the line is those two fields with one space
/// between them, the earlier field of the fixed order first.
pub proof fn lemma_two_fields(flags: Selection, info: VersionInfoView)
    requires
        flags.count() == 2,
    ensures
        !flags.build_time ==> version_line(flags, info) == info.version + seq![' '] + info.hash,
        !flags.hash ==> version_line(flags, info) == info.version + seq![' '] + info.build_time,
        !flags.version ==> version_line(flags, info) == info.hash + seq![' '] + info.build_time,
{
    reveal_with_fuel(join_with_space, 3);
    let fields = selected_fields(flags, info);
    assert(fields.drop_last() =~= seq![fields[0]]);
}

/// The line is a function of the selection and the record alone: asked again
/// with the same two, it comes out the same.
pub proof fn lemma_same_inputs_same_line(
    flags: Selection,
    info: VersionInfoView,
    again_flags: Selection,
    again_info: VersionInfoView,
)
    requires
        flags == again_flags,
        info == again_info,
    ensures
        version_line(flags, info) == version_line(again_flags, again_info),
{
}

/// Lays out the selected fields of `vinfo` on one line.
pub fn format_version(flags: &Selection, vinfo: &VersionInfo) -> (line: String)
    ensures
        line@ == version_line(*flags, vinfo@),
{
    let mut sb = String::new();
    let ghost mut fields = Seq::<Seq<char>>::empty();

    // Without any flag, every field is shown.
    let no_flag = !(flags.version || flags.hash || flags.build_time);

    let mut precedent = false;

    proof {
        reveal_strlit(" ");
    }

    if no_flag || flags.version {
        proof {
            lemma_join_push(fields, vinfo.version@);
            fields = fields.push(vinfo.version@);
        }
        sb.append(vinfo.version.as_str());
        precedent = true;
    }
    if no_flag || flags.hash {
        if precedent {
            sb.append(" ");
        }
        proof {
            lemma_join_push(fields, vinfo.hash@);
            fields = fields.push(vinfo.hash@);
        }
        sb.append(vinfo.hash.as_str());
        precedent = true;
    }
    if no_flag || flags.build_time {
        if precedent {
            sb.append(" ");
        }
        proof {
            lemma_join_push(fields, vinfo.build_time@);
            fields = fields.push(vinfo.build_time@);
        }
        sb.append(vinfo.build_time.as_str());
    }
    sb
}

} // verus!
