//! What the interface needs to know of a preset file.
use crate::text;
use vstd::prelude::*;

verus! {

broadcast use vstd::string::group_string_axioms;

/// Stands for the path of a preset file.
///
/// Paths are compared component by component, which is the file system's
/// business; here two paths are the same exactly when their ids are.
#[derive(Debug, Clone, Copy, PartialEq, Eq, Structural)]
pub struct PresetId {
    pub index: u64,
}

/// A preset in the library.
#[derive(Debug)]
pub struct PresetEntry {
    /// The display name, from inside the file.
    pub name: String,
    pub path: PresetId,
    /// The file name without its extension, where the path has one.
    pub stem: Option<String>,
    /// The file name, where the path has one.
    pub file_name: Option<String>,
}

/// A preset, with its texts as sequences of characters.
#[verifier::ext_equal]
pub struct PresetView {
    pub name: Seq<char>,
    pub path: PresetId,
    pub stem: Option<Seq<char>>,
    pub file_name: Option<Seq<char>>,
}

/// The characters of a text that may be absent.
pub open spec fn string_of(s: Option<String>) -> Option<Seq<char>> {
    match s {
        Some(s) => Some(s@),
        None => None,
    }
}

impl View for PresetEntry {
    type V = PresetView;

    open spec fn view(&self) -> PresetView {
        PresetView {
            name: self.name@,
            path: self.path,
            stem: string_of(self.stem),
            file_name: string_of(self.file_name),
        }
    }
}

/// The presets of a library, in order.
pub open spec fn library(presets: Seq<PresetEntry>) -> Seq<PresetView> {
    presets.map_values(|entry: PresetEntry| entry@)
}

impl PresetView {
    /// What a menu calls this preset: its name, or the file's when the name is
    /// blank.
    pub open spec fn label(self) -> Seq<char> {
        if text::trimmed(self.name).len() > 0 {
            self.name
        } else {
            match self.stem {
                Some(stem) => stem,
                None => "?"@,
            }
        }
    }
}

/// Copies a text that may be absent.
pub fn copy_text(s: &Option<String>) -> (r: Option<String>)
    ensures
        string_of(r) == string_of(*s),
{
    match s {
        Some(s) => Some(s.clone()),
        None => None,
    }
}

/// Whether two choices of preset are the same choice.
pub fn same_choice(a: Option<PresetId>, b: Option<PresetId>) -> (r: bool)
    ensures
        r == (a == b),
{
    match (a, b) {
        (Some(a), Some(b)) => a == b,
        (None, None) => true,
        _ => false,
    }
}

impl PresetEntry {
    /// A copy of this entry.
    pub fn duplicate(&self) -> (r: Self)
        ensures
            r@ == self@,
    {
        PresetEntry {
            name: self.name.clone(),
            path: self.path,
            stem: copy_text(&self.stem),
            file_name: copy_text(&self.file_name),
        }
    }

    /// What a menu calls this preset.
    ///
    /// The display name comes from inside the file; the file name stands in when
    /// a preset has an empty name line.
    pub fn label(&self) -> (r: String)
        ensures
            r@ == self@.label(),
    {
        if text::trim(self.name.as_str()).is_empty() {
            match &self.stem {
                Some(stem) => stem.clone(),
                None => "?".to_owned(),
            }
        } else {
            self.name.clone()
        }
    }
}

/// A copy of a library.
pub fn duplicate_all(presets: &Vec<PresetEntry>) -> (r: Vec<PresetEntry>)
    ensures
        library(r@) == library(presets@),
{
    let mut out: Vec<PresetEntry> = Vec::new();
    let mut i: usize = 0;
    while i < presets.len()
        invariant
            i <= presets.len(),
            out.len() == i,
            forall|k: int| 0 <= k < i ==> out[k]@ == presets[k]@,
        decreases presets.len() - i,
    {
        out.push(presets[i].duplicate());
        i = i + 1;
    }
    assert(library(out@) =~= library(presets@));
    out
}

/// The display name of the first preset whose file is `path`.
pub open spec fn name_of(presets: Seq<PresetView>, path: PresetId) -> Option<Seq<char>>
    decreases presets.len(),
{
    if presets.len() == 0 {
        None
    } else if presets[0].path == path {
        Some(presets[0].name)
    } else {
        name_of(presets.drop_first(), path)
    }
}

/// The display name of the active preset, if there is one and it is in the
/// library.
pub open spec fn active_name_of(presets: Seq<PresetView>, active: Option<PresetId>) -> Option<
    Seq<char>,
> {
    match active {
        Some(path) => name_of(presets, path),
        None => None,
    }
}

/// The display name of the active preset.
pub fn active_name(presets: &Vec<PresetEntry>, active: Option<PresetId>) -> (r: Option<String>)
    ensures
        string_of(r) == active_name_of(library(presets@), active),
{
    let path = match active {
        Some(path) => path,
        None => {
            return None;
        },
    };
    let ghost all = library(presets@);
    let mut i: usize = 0;
    assert(all.skip(0) =~= all);
    while i < presets.len()
        invariant
            i <= presets.len(),
            active == Some(path),
            all == library(presets@),
            name_of(all, path) == name_of(all.skip(i as int), path),
        decreases presets.len() - i,
    {
        assert(all.skip(i as int)[0] == presets[i as int]@);
        if presets[i].path == path {
            return Some(presets[i].name.clone());
        }
        assert(all.skip(i as int).drop_first() =~= all.skip(i + 1));
        i = i + 1;
    }
    None
}

/// Whether a preset is the one a new user starts with.
pub open spec fn is_music(entry: PresetView) -> bool {
    text::contains_text(entry.name, "音乐"@) || text::contains_text(entry.name, "Music"@)
}

/// The first music preset.
pub open spec fn music_preset(presets: Seq<PresetView>) -> Option<PresetId>
    decreases presets.len(),
{
    if presets.len() == 0 {
        None
    } else if is_music(presets[0]) {
        Some(presets[0].path)
    } else {
        music_preset(presets.drop_first())
    }
}

/// The preset to start with: the remembered one while its file is still there,
/// else the first music preset, else whatever sorted first.
pub open spec fn start_preset(
    remembered: Option<PresetId>,
    is_file: bool,
    presets: Seq<PresetView>,
) -> Option<PresetId> {
    if remembered is Some && is_file {
        remembered
    } else if music_preset(presets) is Some {
        music_preset(presets)
    } else if presets.len() > 0 {
        Some(presets[0].path)
    } else {
        None
    }
}

/// Picks the preset to start with. `is_file` says whether the remembered preset
/// is still on disk.
pub fn choose_start_preset(
    remembered: Option<PresetId>,
    is_file: bool,
    presets: &Vec<PresetEntry>,
) -> (r: Option<PresetId>)
    ensures
        r == start_preset(remembered, is_file, library(presets@)),
{
    if remembered.is_some() && is_file {
        return remembered;
    }
    let ghost all = library(presets@);
    let mut i: usize = 0;
    assert(all.skip(0) =~= all);
    while i < presets.len()
        invariant
            i <= presets.len(),
            all == library(presets@),
            music_preset(all) == music_preset(all.skip(i as int)),
            !(remembered is Some && is_file),
        decreases presets.len() - i,
    {
        let name = presets[i].name.as_str();
        assert(all.skip(i as int)[0] == presets[i as int]@);
        if text::contains(name, "音乐") || text::contains(name, "Music") {
            return Some(presets[i].path);
        }
        assert(all.skip(i as int).drop_first() =~= all.skip(i + 1));
        i = i + 1;
    }
    if presets.len() > 0 {
        Some(presets[0].path)
    } else {
        None
    }
}

/// A machine with any preset at all starts with one, and what it starts with is
/// the remembered file or a preset of the library.
pub proof fn a_start_preset_is_remembered_or_in_the_library(
    remembered: Option<PresetId>,
    is_file: bool,
    presets: Seq<PresetView>,
)
    ensures
        presets.len() > 0 ==> start_preset(remembered, is_file, presets) is Some,
        start_preset(remembered, is_file, presets) matches Some(path) ==> {
            ||| remembered == Some(path) && is_file
            ||| exists|i: int| 0 <= i < presets.len() && #[trigger] presets[i].path == path
        },
{
    a_music_preset_is_in_the_library(presets);
}

proof fn a_music_preset_is_in_the_library(presets: Seq<PresetView>)
    ensures
        music_preset(presets) matches Some(path) ==> exists|i: int|
            0 <= i < presets.len() && #[trigger] presets[i].path == path && is_music(presets[i]),
    decreases presets.len(),
{
    if presets.len() > 0 && !is_music(presets[0]) {
        let rest = presets.drop_first();
        a_music_preset_is_in_the_library(rest);
        if let Some(path) = music_preset(rest) {
            let i = choose|i: int|
                0 <= i < rest.len() && #[trigger] rest[i].path == path && is_music(rest[i]);
            assert(presets[i + 1] == rest[i]);
        }
    }
}

/// A preset goes by its name if the name shows anything, else by its file's
/// name, else by a question mark.
pub proof fn a_preset_goes_by_what_it_shows(entry: PresetEntry, r: String)
    requires
        call_ensures(PresetEntry::label, (&entry,), r),
    ensures
        (exists|i: int|
            0 <= i < entry.name@.len() && !text::white_space(#[trigger] entry.name@[i])) ==> r@
            == entry.name@,
        (forall|i: int| 0 <= i < entry.name@.len() ==> text::white_space(#[trigger] entry.name@[i]))
            ==> {
            &&& entry.stem matches Some(stem) ==> r@ == stem@
            &&& entry.stem is None ==> r@ == "?"@
        },
{
    let name = entry.name@;
    text::trimming_takes_white_space_only(name);
    let (from, to) = choose|from: int, to: int|
        {
            &&& 0 <= from <= to <= name.len()
            &&& text::trimmed(name) == #[trigger] name.subrange(from, to)
            &&& forall|i: int| 0 <= i < from || to <= i < name.len() ==> text::white_space(name[i])
        };
    if exists|i: int| 0 <= i < name.len() && !text::white_space(#[trigger] name[i]) {
        let i = choose|i: int| 0 <= i < name.len() && !text::white_space(#[trigger] name[i]);
        assert(from <= i < to);
    } else if text::trimmed(name).len() > 0 {
        assert(text::trimmed(name)[0] == name[from]);
    }
}

/// The active preset goes by the name of the first preset of the library with
/// its path; without one there, or without an active preset, there is no name.
pub proof fn an_active_preset_is_named_by_the_library(
    presets: Vec<PresetEntry>,
    active: Option<PresetId>,
    r: Option<String>,
    i: int,
)
    requires
        call_ensures(active_name, (&presets, active), r),
        0 <= i <= presets.len(),
        forall|k: int| 0 <= k < i ==> active != Some((#[trigger] presets[k]).path),
        i < presets.len() ==> active == Some(presets[i].path),
    ensures
        i < presets.len() ==> string_of(r) == Some(presets[i].name@),
        i == presets.len() ==> r is None,
{
    if let Some(path) = active {
        let all = library(presets@);
        assert forall|k: int| 0 <= k < i implies (#[trigger] all[k]).path != path by {
            assert(all[k] == presets[k]@);
        }
        if i < presets.len() {
            assert(all[i] == presets[i]@);
        }
        the_first_with_the_path_names_it(all, path, i);
    }
}

proof fn the_first_with_the_path_names_it(presets: Seq<PresetView>, path: PresetId, i: int)
    requires
        0 <= i <= presets.len(),
        forall|k: int| 0 <= k < i ==> (#[trigger] presets[k]).path != path,
        i < presets.len() ==> presets[i].path == path,
    ensures
        name_of(presets, path) == (if i < presets.len() {
            Some(presets[i].name)
        } else {
            None
        }),
    decreases presets.len(),
{
    if presets.len() > 0 && i > 0 {
        let rest = presets.drop_first();
        assert(presets[0].path != path);
        assert forall|k: int| 0 <= k < i - 1 implies (#[trigger] rest[k]).path != path by {
            assert(rest[k] == presets[k + 1]);
        }
        if i < presets.len() {
            assert(rest[i - 1] == presets[i]);
        }
        the_first_with_the_path_names_it(rest, path, i - 1);
    }
}

/// A start takes the remembered preset while its file is there; else the first
/// preset with music in its name, in either language; else the first of all; and
/// none only from an empty library.
pub proof fn a_start_prefers_what_was_used_last(
    remembered: Option<PresetId>,
    is_file: bool,
    presets: Vec<PresetEntry>,
    r: Option<PresetId>,
    i: int,
)
    requires
        call_ensures(choose_start_preset, (remembered, is_file, &presets), r),
        0 <= i <= presets.len(),
        forall|k: int|
            0 <= k < i ==> {
                &&& !text::contains_text((#[trigger] presets[k]).name@, "音乐"@)
                &&& !text::contains_text(presets[k].name@, "Music"@)
            },
        i < presets.len() ==> {
            ||| text::contains_text(presets[i].name@, "音乐"@)
            ||| text::contains_text(presets[i].name@, "Music"@)
        },
    ensures
        remembered is Some && is_file ==> r == remembered,
        !(remembered is Some && is_file) ==> {
            &&& i < presets.len() ==> r == Some(presets[i].path)
            &&& i == presets.len() && presets.len() > 0 ==> r == Some(presets[0].path)
            &&& presets.len() == 0 ==> r is None
        },
{
    let all = library(presets@);
    assert forall|k: int| 0 <= k < i implies !is_music(#[trigger] all[k]) by {
        assert(all[k] == presets[k]@);
    }
    if i < presets.len() {
        assert(all[i] == presets[i]@);
    }
    if presets.len() > 0 {
        assert(all[0] == presets[0]@);
    }
    the_first_music_is_found(all, i);
}

proof fn the_first_music_is_found(presets: Seq<PresetView>, i: int)
    requires
        0 <= i <= presets.len(),
        forall|k: int| 0 <= k < i ==> !is_music(#[trigger] presets[k]),
        i < presets.len() ==> is_music(presets[i]),
    ensures
        music_preset(presets) == (if i < presets.len() {
            Some(presets[i].path)
        } else {
            None
        }),
    decreases presets.len(),
{
    if presets.len() > 0 && i > 0 {
        let rest = presets.drop_first();
        assert(!is_music(presets[0]));
        assert forall|k: int| 0 <= k < i - 1 implies !is_music(#[trigger] rest[k]) by {
            assert(rest[k] == presets[k + 1]);
        }
        if i < presets.len() {
            assert(rest[i - 1] == presets[i]);
        }
        the_first_music_is_found(rest, i - 1);
    }
}

/// A copy of a library is the same library, and two choices are the same exactly
/// when both are none or both are the same path.
pub proof fn copies_and_choices_are_exact(
    presets: Vec<PresetEntry>,
    copy: Vec<PresetEntry>,
    a: Option<PresetId>,
    b: Option<PresetId>,
    same: bool,
)
    requires
        call_ensures(duplicate_all, (&presets,), copy),
        call_ensures(same_choice, (a, b), same),
    ensures
        copy.len() == presets.len(),
        forall|i: int|
            0 <= i < copy.len() ==> {
                &&& (#[trigger] copy[i]).name@ == presets[i].name@
                &&& copy[i].path == presets[i].path
                &&& string_of(copy[i].stem) == string_of(presets[i].stem)
                &&& string_of(copy[i].file_name) == string_of(presets[i].file_name)
            },
        same <==> (a is None && b is None) || (a is Some && b is Some && a->0.index == b->0.index),
{
    assert(library(copy@).len() == library(presets@).len());
    assert forall|i: int| 0 <= i < copy.len() implies (#[trigger] copy[i])@ == presets[i]@ by {
        assert(library(copy@)[i] == library(presets@)[i]);
    }
}

/// A preset as values is the preset, and a library is its presets in order.
pub proof fn a_preset_is_seen_as_it_is(entry: PresetEntry, presets: Seq<PresetEntry>, i: int)
    ensures
        entry@.name == entry.name@,
        entry@.path == entry.path,
        entry.stem matches Some(stem) ==> entry@.stem == Some(stem@),
        entry.stem is None ==> entry@.stem is None,
        entry.file_name matches Some(name) ==> entry@.file_name == Some(name@),
        entry.file_name is None ==> entry@.file_name is None,
        library(presets).len() == presets.len(),
        0 <= i < presets.len() ==> library(presets)[i] == presets[i]@,
{
}

} // verus!
