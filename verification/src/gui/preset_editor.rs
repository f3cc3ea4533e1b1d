//! Editing the list of presets: adding one under a fresh id derived from
//! its name, deleting one, and checking the edited list.

use vstd::prelude::*;
use vstd::set_lib::{lemma_int_range, lemma_len_subset, lemma_map_size, set_int_range};

use crate::config::schema::{clone_presets, default_config, presets_view, AppConfig, AppConfigView, Preset, PresetView};
use crate::config::validation::{validate_result, validate};
use crate::error::{ErrorView, VerbaError};
use crate::text::{
    chars_of, concat2, decimal, decimal_string, is_ascii_alnum, is_ascii_alphanumeric, is_blank,
    is_blank_str, lemma_decimal_injective, lemma_trim_idempotent, str_eq, string_from_chars, string_of, trim,
    trim_end_char, trimmed, trimmed_end_len, lemma_trim_end_char_prefix_shape,
};

verus! {

/// What `char::to_lowercase` yields for a character (Unicode's lowercase
/// mapping, one or more characters).
pub uninterp spec fn unicode_lowercase(c: char) -> Seq<char>;

/// Calls `char::to_lowercase` and collects what it yields. Trusted: that
/// the result is [`unicode_lowercase`] of the character.
#[verifier::external_body]
fn char_to_lowercase(c: char) -> (r: Vec<char>)
    ensures
        r@ == unicode_lowercase(c),
{
    c.to_lowercase().collect()
}

/// Whether a text has the shape of a hyphenated UUID: 36 characters,
/// dashes at positions 8, 13, 18 and 23 and lower-case hexadecimal digits
/// elsewhere.
pub open spec fn uuid_shaped(s: Seq<char>) -> bool {
    &&& s.len() == 36
    &&& forall|i: int|
        0 <= i < 36 ==> if i == 8 || i == 13 || i == 18 || i == 23 {
            s[i] == '-'
        } else {
            ('0' <= #[trigger] s[i] <= '9') || ('a' <= s[i] <= 'f')
        }
}

/// Calls `uuid::Uuid::new_v4()` and formats it with `to_string()`.
/// Trusted: that the text is a hyphenated lower-case UUID, as the `uuid`
/// crate's `Display` writes it. Which UUID comes back is random and not
/// stated.
#[verifier::external_body]
fn random_uuid_text() -> (r: String)
    ensures
        uuid_shaped(r@),
{
    uuid::Uuid::new_v4().to_string()
}

/// The characters of `s`, each replaced by its lowercase mapping.
pub open spec fn lowered(s: Seq<char>) -> Seq<char>
    decreases s.len(),
{
    if s.len() == 0 {
        Seq::empty()
    } else {
        lowered(s.drop_last()) + unicode_lowercase(s.last())
    }
}

/// One step of slug building: letters and digits are kept, any other
/// character becomes one dash, but never a leading dash or two in a row.
pub open spec fn slug_step(st: (Seq<char>, bool), c: char) -> (Seq<char>, bool) {
    if is_ascii_alnum(c) {
        (st.0.push(c), false)
    } else if !st.1 && st.0.len() > 0 {
        (st.0.push('-'), true)
    } else {
        st
    }
}

/// Slug building over a sequence of characters, from a given state.
pub open spec fn slug_fold(st: (Seq<char>, bool), cs: Seq<char>) -> (Seq<char>, bool)
    decreases cs.len(),
{
    if cs.len() == 0 {
        st
    } else {
        slug_step(slug_fold(st, cs.drop_last()), cs.last())
    }
}

/// The slug of already lower-cased text: its ASCII letters and digits,
/// with each run of other characters turned into one dash, without leading
/// or trailing dashes; none when nothing is left.
pub open spec fn slug_of_lowered(cs: Seq<char>) -> Option<Seq<char>> {
    let s = trim_end_char(slug_fold((Seq::empty(), false), cs).0, '-');
    if s.len() == 0 {
        None
    } else {
        Some(s)
    }
}

/// The slug of a name: see [`slug_of_lowered`], applied to the name's
/// lowercase mapping.
pub open spec fn slug_of(name: Seq<char>) -> Option<Seq<char>> {
    slug_of_lowered(lowered(name))
}

/// The characters of `name`, each replaced by its lowercase mapping.
fn lowercase_chars(name: &str) -> (r: Vec<char>)
    ensures
        r@ == lowered(name@),
{
    let cs = chars_of(name);
    let mut out: Vec<char> = Vec::new();
    for i in 0..cs.len()
        invariant
            cs@ == name@,
            out@ == lowered(cs@.take(i as int)),
    {
        let low = char_to_lowercase(cs[i]);
        let mut k: usize = 0;
        let ghost before = out@;
        while k < low.len()
            invariant
                k <= low.len(),
                out@ == before + low@.take(k as int),
            decreases low.len() - k,
        {
            out.push(low[k]);
            assert(low@.take(k + 1) == low@.take(k as int).push(low@[k as int]));
            k += 1;
        }
        proof {
            assert(low@.take(low.len() as int) == low@);
            assert(cs@.take(i + 1).drop_last() == cs@.take(i as int));
        }
    }
    assert(cs@.take(cs.len() as int) == cs@);
    out
}

/// The slug of lower-cased text; see [`slug_of_lowered`].
pub fn slug_from_lowered(cs: &Vec<char>) -> (r: Option<String>)
    ensures
        match slug_of_lowered(cs@) {
            Some(s) => r matches Some(x) && x@ == s,
            None => r is None,
        },
{
    let mut slug: Vec<char> = Vec::new();
    let mut dash = false;
    let ghost init = (Seq::<char>::empty(), false);
    for i in 0..cs.len()
        invariant
            (slug@, dash) == slug_fold(init, cs@.take(i as int)),
    {
        let ch = cs[i];
        if is_ascii_alphanumeric(ch) {
            slug.push(ch);
            dash = false;
        } else if !dash && slug.len() > 0 {
            slug.push('-');
            dash = true;
        }
        assert(cs@.take(i + 1).drop_last() == cs@.take(i as int));
    }
    assert(cs@.take(cs.len() as int) == cs@);
    let j = trimmed_end_len(&slug, '-');
    if j == 0 {
        None
    } else {
        Some(string_from_chars(&slug, 0, j))
    }
}

/// The slug of a name; see [`slug_of`].
pub fn slugify(name: &str) -> (r: Option<String>)
    ensures
        match slug_of(name@) {
            Some(s) => r matches Some(x) && x@ == s,
            None => r is None,
        },
{
    slug_from_lowered(&lowercase_chars(name))
}

/// Some preset has the id.
pub open spec fn id_taken(ps: Seq<PresetView>, id: Seq<char>) -> bool {
    exists|i: int| 0 <= i < ps.len() && #[trigger] ps[i].id == id
}

/// `base` with a numeric suffix.
pub open spec fn suffixed(base: Seq<char>, k: nat) -> Seq<char> {
    base + "-"@ + decimal(k)
}

/// `id` is the id that a new preset gets from `base`: `base` itself when
/// it is free, else `base-k` for the least `k >= 2` that is free.
pub open spec fn fresh_id_from(ps: Seq<PresetView>, base: Seq<char>, id: Seq<char>) -> bool {
    if !id_taken(ps, base) {
        id == base
    } else {
        exists|k: nat|
            2 <= k && id == suffixed(base, k) && !id_taken(ps, id) && forall|m: nat|
                2 <= m < k ==> id_taken(ps, #[trigger] suffixed(base, m))
    }
}

proof fn lemma_suffixed_injective(base: Seq<char>, a: nat, b: nat)
    requires
        suffixed(base, a) == suffixed(base, b),
    ensures
        a == b,
{
    reveal_strlit("-");
    let start = base.len() + 1;
    assert(suffixed(base, a).subrange(start as int, suffixed(base, a).len() as int) == decimal(a));
    assert(suffixed(base, b).subrange(start as int, suffixed(base, b).len() as int) == decimal(b));
    lemma_decimal_injective(a, b);
}

/// Among `base-2` .. `base-(n+2)` at least one is free, where `n` is the
/// number of presets.
proof fn lemma_free_suffix(ps: Seq<PresetView>, base: Seq<char>)
    ensures
        exists|j: nat| 2 <= j <= ps.len() + 2 && !id_taken(ps, #[trigger] suffixed(base, j)),
{
    let n = ps.len() as int;
    if forall|j: nat| 2 <= j <= n + 2 ==> id_taken(ps, #[trigger] suffixed(base, j)) {
        let f = |k: int| choose|i: int| 0 <= i < n && #[trigger] ps[i].id == suffixed(base, k as nat);
        let x = set_int_range(2, n + 3);
        let y = x.map(f);
        lemma_int_range(2, n + 3);
        lemma_int_range(0, n);
        assert forall|k: int| x.contains(k) implies 0 <= f(k) < n && ps[f(k)].id == suffixed(
            base,
            k as nat,
        ) by {
            assert(id_taken(ps, suffixed(base, k as nat)));
        }
        assert forall|k1: int, k2: int|
            x.contains(k1) && x.contains(k2) && #[trigger] f(k1) == #[trigger] f(k2) implies k1
            == k2 by {
            lemma_suffixed_injective(base, k1 as nat, k2 as nat);
        }
        assert(vstd::relations::injective_on(f, x));
        lemma_map_size(x, y, f);
        assert forall|i: int| y.contains(i) implies set_int_range(0, n).contains(i) by {
            let k = choose|k: int| x.contains(k) && f(k) == i;
        }
        lemma_len_subset(y, set_int_range(0, n));
    }
}

/// Whether some preset has the id.
fn has_id(presets: &Vec<Preset>, id: &str) -> (r: bool)
    ensures
        r == id_taken(presets_view(presets@), id@),
{
    let ghost ps = presets_view(presets@);
    let mut i: usize = 0;
    while i < presets.len()
        invariant
            i <= presets.len(),
            ps == presets_view(presets@),
            forall|j: int| 0 <= j < i ==> #[trigger] ps[j].id != id@,
        decreases presets.len() - i,
    {
        if str_eq(presets[i].id.as_str(), id) {
            assert(ps[i as int].id == id@);
            return true;
        }
        i += 1;
    }
    false
}

/// `format!("{base}-{k}")`.
fn suffixed_id(base: &str, k: u128) -> (r: String)
    ensures
        r@ == suffixed(base@, k as nat),
{
    let mut r = concat2(base, "-");
    r.append(decimal_string(k).as_str());
    r
}

/// A list of presets being edited.
#[derive(Debug)]
pub struct PresetEditorModel {
    presets: Vec<Preset>,
}

impl Clone for PresetEditorModel {
    fn clone(&self) -> (r: Self)
        ensures
            r@ == self@,
    {
        PresetEditorModel { presets: clone_presets(&self.presets) }
    }
}

impl View for PresetEditorModel {
    type V = Seq<PresetView>;

    closed spec fn view(&self) -> Seq<PresetView> {
        presets_view(self.presets@)
    }
}

/// The presets without those that have the id.
pub open spec fn without_id(ps: Seq<PresetView>, id: Seq<char>) -> Seq<PresetView>
    decreases ps.len(),
{
    if ps.len() == 0 {
        ps
    } else if ps.last().id == id {
        without_id(ps.drop_last(), id)
    } else {
        without_id(ps.drop_last(), id).push(ps.last())
    }
}

/// The configuration against which edited presets are checked: the
/// default one with those presets.
pub open spec fn config_with_presets(ps: Seq<PresetView>) -> AppConfigView {
    AppConfigView { presets: ps, ..default_config() }
}

/// `after` is `before` with one preset added for `name` and
/// `instruction`: both trimmed, under a fresh id derived from the name's
/// slug, or from a random UUID when the name has none.
pub open spec fn added_preset(
    before: Seq<PresetView>,
    after: Seq<PresetView>,
    name: Seq<char>,
    instruction: Seq<char>,
) -> bool {
    let added = after.last();
    &&& after.len() == before.len() + 1
    &&& after.drop_last() == before
    &&& added.name == trim(name)
    &&& added.instruction == trim(instruction)
    &&& match slug_of(trim(name)) {
        Some(s) => fresh_id_from(before, s, added.id),
        None => exists|u: Seq<char>| uuid_shaped(u) && fresh_id_from(before, u, added.id),
    }
}

impl PresetEditorModel {
    pub fn new(presets: Vec<Preset>) -> (m: Self)
        ensures
            m@ == presets_view(presets@),
    {
        Self { presets }
    }

    pub fn presets(&self) -> (r: &[Preset])
        ensures
            presets_view(r@) == self@,
    {
        self.presets.as_slice()
    }

    pub fn into_presets(self) -> (r: Vec<Preset>)
        ensures
            presets_view(r@) == self@,
    {
        self.presets
    }

    /// The id a new preset named `name` gets; see [`fresh_id_from`]. When
    /// the name yields no slug, the base is a random UUID.
    pub fn unique_id_for_name(&self, name: &str) -> (r: String)
        ensures
            match slug_of(name@) {
                Some(s) => fresh_id_from(self@, s, r@),
                None => exists|u: Seq<char>| uuid_shaped(u) && fresh_id_from(self@, u, r@),
            },
    {
        let base = match slugify(name) {
            Some(s) => s,
            None => random_uuid_text(),
        };
        self.unique_id_from_base(base.as_str())
    }

    /// The id a new preset gets from `base`; see [`fresh_id_from`].
    pub fn unique_id_from_base(&self, base: &str) -> (r: String)
        ensures
            fresh_id_from(self@, base@, r@),
    {
        let ghost ps = self@;
        if !has_id(&self.presets, base) {
            return base.to_string();
        }
        proof {
            lemma_free_suffix(ps, base@);
        }
        let n = self.presets.len();
        let mut k: u128 = 2;
        loop
            invariant
                ps == self@,
                ps == presets_view(self.presets@),
                n == ps.len(),
                id_taken(ps, base@),
                2 <= k <= n + 2,
                forall|m: nat| 2 <= m < k ==> id_taken(ps, #[trigger] suffixed(base@, m)),
                exists|j: nat| k <= j <= n + 2 && !id_taken(ps, #[trigger] suffixed(base@, j)),
            decreases n + 2 - k,
        {
            let candidate = suffixed_id(base, k);
            if !has_id(&self.presets, candidate.as_str()) {
                return candidate;
            }
            proof {
                let j = choose|j: nat| k <= j <= n + 2 && !id_taken(ps, #[trigger] suffixed(base@, j));
                assert(j != k);
            }
            k += 1;
        }
    }

    /// Adds a preset with the trimmed name and instruction under a fresh
    /// id; a blank name or instruction is refused.
    pub fn add_preset(&mut self, name: &str, instruction: &str) -> (r: Result<(), VerbaError>)
        ensures
            if is_blank(name@) {
                &&& r matches Err(e) && e@ == ErrorView::Config("preset name is required"@)
                &&& final(self)@ == old(self)@
            } else if is_blank(instruction@) {
                &&& r matches Err(e) && e@ == ErrorView::Config("preset instruction is required"@)
                &&& final(self)@ == old(self)@
            } else {
                &&& r is Ok
                &&& added_preset(old(self)@, final(self)@, name@, instruction@)
            },
    {
        proof {
            lemma_trim_idempotent(name@);
            lemma_trim_idempotent(instruction@);
        }
        let name = trimmed(name);
        let instruction = trimmed(instruction);
        if is_blank_str(name.as_str()) {
            return Err(VerbaError::Config("preset name is required".to_string()));
        }
        if is_blank_str(instruction.as_str()) {
            return Err(VerbaError::Config("preset instruction is required".to_string()));
        }
        let id = self.unique_id_for_name(name.as_str());
        let preset = Preset { id, name, instruction };
        self.presets.push(preset);
        proof {
            assert(presets_view(self.presets@) == presets_view(old(self).presets@).push(preset@));
            assert(presets_view(self.presets@).drop_last() == presets_view(old(self).presets@));
            assert(presets_view(self.presets@).last() == preset@);
        }
        Ok(())
    }

    /// [`PresetEditorModel::add_preset`], returning the model.
    pub fn with_added_preset(self, name: &str, instruction: &str) -> (r: Result<Self, VerbaError>)
        ensures
            if is_blank(name@) {
                r matches Err(e) && e@ == ErrorView::Config("preset name is required"@)
            } else if is_blank(instruction@) {
                r matches Err(e) && e@ == ErrorView::Config("preset instruction is required"@)
            } else {
                r matches Ok(m) && added_preset(self@, m@, name@, instruction@)
            },
    {
        let mut m = self;
        m.add_preset(name, instruction)?;
        Ok(m)
    }

    /// Removes the presets with the id and says whether any was removed;
    /// the only preset cannot be removed.
    pub fn delete_preset(&mut self, id: &str) -> (r: Result<bool, VerbaError>)
        ensures
            if old(self)@.len() == 1 && old(self)@[0].id == id@ {
                &&& r matches Err(e) && e@ == ErrorView::Config("last preset cannot be deleted"@)
                &&& final(self)@ == old(self)@
            } else {
                &&& final(self)@ == without_id(old(self)@, id@)
                &&& r matches Ok(removed) && removed == (final(self)@.len() != old(self)@.len())
            },
    {
        let ghost ps = self@;
        if self.presets.len() == 1 && str_eq(self.presets[0].id.as_str(), id) {
            return Err(VerbaError::Config("last preset cannot be deleted".to_string()));
        }
        let before = self.presets.len();
        let mut kept: Vec<Preset> = Vec::new();
        let mut i: usize = 0;
        while i < self.presets.len()
            invariant
                i <= self.presets.len(),
                ps == presets_view(self.presets@),
                presets_view(kept@) == without_id(ps.take(i as int), id@),
            decreases self.presets.len() - i,
        {
            assert(ps.take(i + 1).drop_last() == ps.take(i as int));
            if !str_eq(self.presets[i].id.as_str(), id) {
                kept.push(self.presets[i].clone());
                assert(presets_view(kept@) == presets_view(kept@.drop_last()).push(kept@.last()@));
            }
            i += 1;
        }
        assert(ps.take(ps.len() as int) == ps);
        self.presets = kept;
        Ok(self.presets.len() != before)
    }

    /// Checks the presets as the configuration would; see
    /// [`crate::config::validation::validate_result`].
    pub fn validate(&self) -> (r: Result<(), VerbaError>)
        ensures
            crate::error::result_view(r) == validate_result(config_with_presets(self@)),
    {
        let mut config = AppConfig::default_config();
        config.presets = clone_presets(&self.presets);
        validate(&mut config)
    }
}

/// Whether the editor lets a row be deleted: one row always stays.
pub fn can_delete_row(row_count: usize) -> (r: bool)
    ensures
        r == (row_count > 1),
{
    row_count > 1
}

/// The presets that the editor's rows hold, with name and instruction
/// trimmed, if together they pass the checks.
pub fn collect_rows(rows: &Vec<Preset>) -> (r: Result<Vec<Preset>, VerbaError>)
    ensures
        ({
            let cleaned = rows@.map_values(
                |p: Preset| PresetView { id: p.id@, name: trim(p.name@), instruction: trim(p.instruction@) },
            );
            match validate_result(config_with_presets(cleaned)) {
                Ok(_) => r matches Ok(v) && presets_view(v@) == cleaned,
                Err(e) => r matches Err(x) && x@ == e,
            }
        }),
{
    let ghost cleaned = rows@.map_values(
        |p: Preset| PresetView { id: p.id@, name: trim(p.name@), instruction: trim(p.instruction@) },
    );
    let mut presets: Vec<Preset> = Vec::new();
    for i in 0..rows.len()
        invariant
            presets_view(presets@) == cleaned.take(i as int),
            cleaned.len() == rows.len(),
            cleaned == rows@.map_values(
                |p: Preset| PresetView { id: p.id@, name: trim(p.name@), instruction: trim(p.instruction@) },
            ),
    {
        let row = &rows[i];
        presets.push(
            Preset {
                id: row.id.clone(),
                name: trimmed(row.name.as_str()),
                instruction: trimmed(row.instruction.as_str()),
            },
        );
        assert(presets_view(presets@) == presets_view(presets@.drop_last()).push(presets@.last()@));
        assert(cleaned.take(i + 1) == cleaned.take(i as int).push(cleaned[i as int]));
    }
    assert(cleaned.take(rows.len() as int) == cleaned);
    let model = PresetEditorModel::new(presets);
    model.validate()?;
    Ok(model.into_presets())
}

/// No two presets share an id.
pub open spec fn ids_distinct(ps: Seq<PresetView>) -> bool {
    forall|i: int, j: int| 0 <= i < ps.len() && 0 <= j < ps.len() && i != j ==> #[trigger] ps[i].id
        != #[trigger] ps[j].id
}

/// The id a new preset gets is not taken.
pub proof fn lemma_fresh_id_is_free(ps: Seq<PresetView>, base: Seq<char>, id: Seq<char>)
    requires
        fresh_id_from(ps, base, id),
    ensures
        !id_taken(ps, id),
{
}

/// Adding a preset keeps the ids distinct.
pub proof fn lemma_add_keeps_ids_distinct(
    before: Seq<PresetView>,
    after: Seq<PresetView>,
    name: Seq<char>,
    instruction: Seq<char>,
)
    requires
        ids_distinct(before),
        added_preset(before, after, name, instruction),
    ensures
        ids_distinct(after),
{
    let added = after.last();
    match slug_of(trim(name)) {
        Some(s) => lemma_fresh_id_is_free(before, s, added.id),
        None => {
            let u = choose|u: Seq<char>| uuid_shaped(u) && fresh_id_from(before, u, added.id);
            lemma_fresh_id_is_free(before, u, added.id);
        },
    }
    assert forall|i: int, j: int|
        0 <= i < after.len() && 0 <= j < after.len() && i != j implies #[trigger] after[i].id
        != #[trigger] after[j].id by {
        if i == after.len() - 1 {
            assert(after[j] == before[j]);
        } else if j == after.len() - 1 {
            assert(after[i] == before[i]);
        } else {
            assert(after[i] == before[i]);
            assert(after[j] == before[j]);
        }
    }
}

proof fn lemma_without_absent_id(ps: Seq<PresetView>, id: Seq<char>)
    requires
        forall|i: int| 0 <= i < ps.len() ==> #[trigger] ps[i].id != id,
    ensures
        without_id(ps, id) == ps,
    decreases ps.len(),
{
    if ps.len() > 0 {
        lemma_without_absent_id(ps.drop_last(), id);
        assert(ps.drop_last().push(ps.last()) == ps);
    }
}

/// Deleting removes every preset with the id and keeps the others in
/// order.
pub proof fn lemma_without_id_contents(ps: Seq<PresetView>, id: Seq<char>)
    ensures
        forall|i: int| 0 <= i < without_id(ps, id).len() ==> #[trigger] without_id(ps, id)[i].id != id,
        without_id(ps, id).len() <= ps.len(),
        without_id(ps, id).len() == ps.len() <==> !id_taken(ps, id),
    decreases ps.len(),
{
    if ps.len() > 0 {
        let rest = ps.drop_last();
        lemma_without_id_contents(rest, id);
        if ps.last().id == id {
            assert(id_taken(ps, id)) by {
                assert(ps[ps.len() - 1].id == id);
            }
        } else {
            if id_taken(ps, id) {
                let i = choose|i: int| 0 <= i < ps.len() && #[trigger] ps[i].id == id;
                assert(rest[i].id == id);
            }
            if id_taken(rest, id) {
                let i = choose|i: int| 0 <= i < rest.len() && #[trigger] rest[i].id == id;
                assert(ps[i].id == id);
            }
        }
    }
}

/// With distinct ids, deleting a preset other than the only one leaves at
/// least one preset.
pub proof fn lemma_delete_keeps_a_preset(ps: Seq<PresetView>, id: Seq<char>)
    requires
        ids_distinct(ps),
        ps.len() >= 1,
        !(ps.len() == 1 && ps[0].id == id),
    ensures
        without_id(ps, id).len() >= 1,
        without_id(ps, id).len() >= ps.len() - 1,
{
    let rest = ps.drop_last();
    if ps.last().id == id {
        assert forall|i: int| 0 <= i < rest.len() implies #[trigger] rest[i].id != id by {
            assert(ps[i].id != ps[ps.len() - 1].id);
        }
        lemma_without_absent_id(rest, id);
    } else {
        lemma_without_id_contents(rest, id);
        if rest.len() > 0 && id_taken(rest, id) {
            let k = choose|k: int| 0 <= k < rest.len() && #[trigger] rest[k].id == id;
            assert forall|i: int| 0 <= i < rest.len() && i != k implies #[trigger] rest[i].id
                != id by {
                assert(ps[i].id != ps[k].id);
            }
            lemma_without_id_count_one(rest, id, k);
        }
    }
}

proof fn lemma_without_id_count_one(ps: Seq<PresetView>, id: Seq<char>, k: int)
    requires
        0 <= k < ps.len(),
        ps[k].id == id,
        forall|i: int| 0 <= i < ps.len() && i != k ==> #[trigger] ps[i].id != id,
    ensures
        without_id(ps, id).len() == ps.len() - 1,
    decreases ps.len(),
{
    let rest = ps.drop_last();
    if k == ps.len() - 1 {
        assert forall|i: int| 0 <= i < rest.len() implies #[trigger] rest[i].id != id by {
            assert(ps[i].id != id);
        }
        lemma_without_absent_id(rest, id);
    } else {
        assert forall|i: int| 0 <= i < rest.len() && i != k implies #[trigger] rest[i].id != id by {
            assert(ps[i].id != id);
        }
        lemma_without_id_count_one(rest, id, k);
    }
}

/// A slug holds only ASCII letters, digits and dashes, and neither starts
/// nor ends with a dash nor holds two dashes in a row.
pub proof fn lemma_slug_shape(name: Seq<char>)
    ensures
        slug_of(name) matches Some(s) ==> {
            &&& forall|i: int| 0 <= i < s.len() ==> is_ascii_alnum(#[trigger] s[i]) || s[i] == '-'
            &&& s[0] != '-'
            &&& s.last() != '-'
            &&& forall|i: int| 0 <= i < s.len() - 1 ==> !(#[trigger] s[i] == '-' && s[i + 1] == '-')
        },
{
    let full = slug_fold((Seq::empty(), false), lowered(name));
    lemma_slug_fold_shape((Seq::empty(), false), lowered(name));
    let s = trim_end_char(full.0, '-');
    lemma_trim_end_char_prefix_shape(full.0, '-');
    if s.len() > 0 {
        assert(s[0] == full.0[0]);
        assert forall|i: int| 0 <= i < s.len() implies is_ascii_alnum(#[trigger] s[i]) || s[i] == '-' by {
            assert(s[i] == full.0[i]);
        }
        assert forall|i: int| 0 <= i < s.len() - 1 implies !(#[trigger] s[i] == '-' && s[i + 1] == '-') by {
            assert(s[i] == full.0[i]);
            assert(s[i + 1] == full.0[i + 1]);
        }
    }
}

/// The shape that slug building keeps.
pub open spec fn slug_state_shape(st: (Seq<char>, bool)) -> bool {
    let s = st.0;
    &&& forall|i: int| 0 <= i < s.len() ==> is_ascii_alnum(#[trigger] s[i]) || s[i] == '-'
    &&& s.len() > 0 ==> s[0] != '-'
    &&& forall|i: int| 0 <= i < s.len() - 1 ==> !(#[trigger] s[i] == '-' && s[i + 1] == '-')
    &&& st.1 <==> (s.len() > 0 && s.last() == '-')
}

proof fn lemma_slug_fold_shape(st: (Seq<char>, bool), cs: Seq<char>)
    requires
        slug_state_shape(st),
    ensures
        slug_state_shape(slug_fold(st, cs)),
    decreases cs.len(),
{
    if cs.len() > 0 {
        lemma_slug_fold_shape(st, cs.drop_last());
        let prev = slug_fold(st, cs.drop_last());
        let next = slug_fold(st, cs);
        let c = cs.last();
        if is_ascii_alnum(c) {
            assert forall|i: int| 0 <= i < next.0.len() - 1 implies !(#[trigger] next.0[i] == '-'
                && next.0[i + 1] == '-') by {
                if i < prev.0.len() - 1 {
                    assert(next.0[i] == prev.0[i]);
                    assert(next.0[i + 1] == prev.0[i + 1]);
                }
            }
            assert forall|i: int| 0 <= i < next.0.len() implies is_ascii_alnum(#[trigger] next.0[i])
                || next.0[i] == '-' by {
                if i < prev.0.len() {
                    assert(next.0[i] == prev.0[i]);
                }
            }
        } else if !prev.1 && prev.0.len() > 0 {
            assert forall|i: int| 0 <= i < next.0.len() - 1 implies !(#[trigger] next.0[i] == '-'
                && next.0[i + 1] == '-') by {
                if i < prev.0.len() - 1 {
                    assert(next.0[i] == prev.0[i]);
                    assert(next.0[i + 1] == prev.0[i + 1]);
                } else {
                    assert(next.0[i] == prev.0.last());
                }
            }
            assert forall|i: int| 0 <= i < next.0.len() implies is_ascii_alnum(#[trigger] next.0[i])
                || next.0[i] == '-' by {
                if i < prev.0.len() {
                    assert(next.0[i] == prev.0[i]);
                }
            }
        }
    }
}

} // verus!
