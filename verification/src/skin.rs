//! The animation state of an operator's skin.
//!
//! A skin has a dorm skeleton and, optionally, a battle skeleton. Every
//! animation name of those skeletons is mapped to the skeleton that plays it;
//! the skin remembers which animation plays now and which played before it.
//! The skeletons themselves are driven by the caller, which performs the
//! `AnimationChange` that each switch hands back.
use vstd::prelude::*;
use vstd::string::StringExecFns;

verus! {

/// Which of an operator's two skeletons an animation belongs to.
#[derive(Debug, Clone, Copy, PartialEq, Eq, Structural)]
pub enum SkinVariant {
    Dorm,
    Battle,
}

/// Errors of skin loading and of animation lookup.
#[derive(Debug, Clone, PartialEq, Eq)]
pub enum SkinError {
    AtlasFileNotFound(String),
    SkeletonFileNotFound(String),
    AnimationNotFound(String),
}

/// The skeleton work that a switch of animation asks for.
#[derive(Debug, Clone, PartialEq, Eq)]
pub enum AnimationChange {
    /// The requested animation already plays: nothing to do.
    Unchanged,
    /// Clear every track of every skeleton, then play the animation.
    Restart,
    /// Blend from the named animation into the requested one, then play it.
    MixFrom(String),
}

/// The mathematical state of a skin.
pub struct SkinView {
    pub operator_id: Seq<char>,
    pub id: Option<Seq<char>>,
    /// Every animation name with its skeleton: the dorm ones, then the battle ones.
    pub entries: Seq<(Seq<char>, SkinVariant)>,
    pub active_variant: SkinVariant,
    pub active_ani: Seq<char>,
    pub previous_ani: Seq<char>,
}

/// The views of a sequence of strings.
pub open spec fn strings_view(v: Seq<String>) -> Seq<Seq<char>> {
    v.map_values(|n: String| n@)
}

/// The views of a sequence of tagged names.
pub open spec fn entries_view(v: Seq<(String, SkinVariant)>) -> Seq<(Seq<char>, SkinVariant)> {
    v.map_values(|e: (String, SkinVariant)| (e.0@, e.1))
}

/// The names of a sequence of tagged names.
pub open spec fn entry_names(v: Seq<(Seq<char>, SkinVariant)>) -> Seq<Seq<char>> {
    v.map_values(|e: (Seq<char>, SkinVariant)| e.0)
}

/// The names of the animations, each tagged with the skeleton that plays it.
pub open spec fn tagged(names: Seq<Seq<char>>, variant: SkinVariant) -> Seq<(Seq<char>, SkinVariant)> {
    names.map_values(|n: Seq<char>| (n, variant))
}

/// The map that inserting the entries one after the other builds: where a
/// name occurs twice, the later entry wins.
pub open spec fn mapping_of(entries: Seq<(Seq<char>, SkinVariant)>) -> Map<Seq<char>, SkinVariant>
    decreases entries.len(),
{
    if entries.len() == 0 {
        Map::empty()
    } else {
        mapping_of(entries.drop_last()).insert(entries.last().0, entries.last().1)
    }
}

/// The entries of a skin built from the animation names of its skeletons.
pub open spec fn skin_entries(dorm: Seq<Seq<char>>, battle: Option<Seq<Seq<char>>>) -> Seq<(Seq<char>, SkinVariant)> {
    match battle {
        Some(b) => tagged(dorm, SkinVariant::Dorm) + tagged(b, SkinVariant::Battle),
        None => tagged(dorm, SkinVariant::Dorm),
    }
}

/// The message of the error for an animation that no skeleton has.
pub open spec fn animation_not_found_message(ani: Seq<char>) -> Seq<char> {
    "\"animation\": "@ + ani
}

/// The skin id that names an operator's skin files.
pub open spec fn char_skin_id_spec(operator_id: Seq<char>, skin_id: Option<Seq<char>>) -> Seq<char> {
    match skin_id {
        Some(s) => operator_id + "_"@ + s,
        None => operator_id,
    }
}

/// The path, without extension, of the dorm skeleton files.
pub open spec fn dorm_base_path_spec(operator_id: Seq<char>, skin_id: Option<Seq<char>>) -> Seq<char> {
    let c = char_skin_id_spec(operator_id, skin_id);
    "assets/dyn/building/vault/characters/build_"@ + c + "/build_"@ + c
}

/// The path, without extension, of the battle skeleton files.
pub open spec fn battle_base_path_spec(operator_id: Seq<char>, skin_id: Option<Seq<char>>) -> Seq<char> {
    let c = char_skin_id_spec(operator_id, skin_id);
    let folder = match skin_id {
        Some(_) => c,
        None => "defaultskin"@,
    };
    "assets/dyn/battle/prefabs/skins/character/"@ + operator_id + "/"@ + folder + "/"@ + c
}

/// The view of an optional string.
pub open spec fn opt_view(s: Option<&str>) -> Option<Seq<char>> {
    match s {
        Some(t) => Some(t@),
        None => None,
    }
}

/// Whether a switch to `ani` stays clear of the battle skeleton, which cannot
/// be driven: a switch that does not return early drives the skeleton of the
/// requested animation.
pub open spec fn switch_supported(s: SkinView, ani: Seq<char>, force: bool) -> bool {
    (mapping_of(s.entries).contains_key(ani) && mapping_of(s.entries)[ani] == SkinVariant::Battle)
        ==> (s.active_ani == ani && !force)
}

/// The state after a request to play `ani`; `None` where no skeleton has it.
pub open spec fn set_animation_spec(s: SkinView, ani: Seq<char>, force: bool) -> Option<SkinView> {
    let mapping = mapping_of(s.entries);
    if !mapping.contains_key(ani) {
        None
    } else if s.active_ani == ani && !force {
        Some(SkinView { active_variant: mapping[ani], ..s })
    } else {
        Some(SkinView { active_variant: mapping[ani], previous_ani: s.active_ani, active_ani: ani, ..s })
    }
}

/// The skeleton work asked for by a request to play `ani`, where it succeeds.
pub open spec fn change_matches(s: SkinView, ani: Seq<char>, force: bool, c: AnimationChange) -> bool {
    if s.active_ani == ani && !force {
        c == AnimationChange::Unchanged
    } else if force {
        c == AnimationChange::Restart
    } else {
        c matches AnimationChange::MixFrom(from) && from@ == s.active_ani
    }
}

/// The animation state of an operator's skin.
pub struct GeneralOperatorSkin {
    operator_id: String,
    id: Option<String>,
    animation_mapping: Vec<(String, SkinVariant)>,
    active_skin_variant: SkinVariant,
    active_ani: String,
    previous_ani: String,
}

impl View for GeneralOperatorSkin {
    type V = SkinView;

    closed spec fn view(&self) -> SkinView {
        SkinView {
            operator_id: self.operator_id@,
            id: match self.id {
                Some(s) => Some(s@),
                None => None,
            },
            entries: entries_view(self.animation_mapping@),
            active_variant: self.active_skin_variant,
            active_ani: self.active_ani@,
            previous_ani: self.previous_ani@,
        }
    }
}

/// Where `i` is the last entry named `name` (or -1 where none is), the map
/// built from the entries holds that entry's skeleton (or lacks the name).
pub proof fn lemma_mapping_last_entry(entries: Seq<(Seq<char>, SkinVariant)>, name: Seq<char>, i: int)
    requires
        -1 <= i < entries.len(),
        i >= 0 ==> entries[i].0 == name,
        forall|j: int| i < j < entries.len() ==> #[trigger] entries[j].0 != name,
    ensures
        i >= 0 ==> mapping_of(entries).contains_key(name) && mapping_of(entries)[name] == entries[i].1,
        i < 0 ==> !mapping_of(entries).contains_key(name),
    decreases entries.len(),
{
    if entries.len() > 0 && i != entries.len() - 1 {
        let shorter = entries.drop_last();
        assert forall|j: int| i < j < shorter.len() implies #[trigger] shorter[j].0 != name by {
            assert(shorter[j] == entries[j]);
        }
        lemma_mapping_last_entry(shorter, name, i);
    }
}

/// The id of the skin files: the operator id, followed by `_` and the skin id
/// where there is one.
pub fn char_skin_id(operator_id: &str, skin_id: Option<&str>) -> (r: String)
    ensures
        r@ == char_skin_id_spec(operator_id@, opt_view(skin_id)),
{
    let mut r = operator_id.to_owned();
    match skin_id {
        Some(s) => {
            r.append("_");
            r.append(s);
        },
        None => {},
    }
    r
}

/// The path, without extension, under which the dorm skeleton's atlas and
/// skeleton files lie.
pub fn dorm_files_base_path(operator_id: &str, skin_id: Option<&str>) -> (r: String)
    ensures
        r@ == dorm_base_path_spec(operator_id@, opt_view(skin_id)),
{
    let c = char_skin_id(operator_id, skin_id);
    let mut r = "assets/dyn/building/vault/characters/build_".to_owned();
    r.append(c.as_str());
    r.append("/build_");
    r.append(c.as_str());
    r
}

/// The path, without extension, under which the battle skeleton's files lie.
pub fn battle_files_base_path(operator_id: &str, skin_id: Option<&str>) -> (r: String)
    ensures
        r@ == battle_base_path_spec(operator_id@, opt_view(skin_id)),
{
    let c = char_skin_id(operator_id, skin_id);
    let mut r = "assets/dyn/battle/prefabs/skins/character/".to_owned();
    r.append(operator_id);
    r.append("/");
    match skin_id {
        Some(_) => r.append(c.as_str()),
        None => r.append("defaultskin"),
    }
    r.append("/");
    r.append(c.as_str());
    r
}

impl GeneralOperatorSkin {
    /// A skin whose skeletons have the given animations (a battle skeleton
    /// only where `battle_animations` is given); nothing plays yet, which the
    /// skin records as the animation `Default`.
    pub fn new(
        operator_id: &str,
        skin_id: Option<&str>,
        dorm_animations: Vec<String>,
        battle_animations: Option<Vec<String>>,
    ) -> (s: Self)
        ensures
            s@.operator_id == operator_id@,
            s@.id == opt_view(skin_id),
            s@.entries == skin_entries(
                strings_view(dorm_animations@),
                match battle_animations {
                    Some(b) => Some(strings_view(b@)),
                    None => None,
                },
            ),
            s@.active_variant == SkinVariant::Dorm,
            s@.active_ani == "Default"@,
            s@.previous_ani == "Default"@,
    {
        let mut mapping: Vec<(String, SkinVariant)> = Vec::new();
        let ghost dorm = strings_view(dorm_animations@);
        let mut i: usize = 0;
        while i < dorm_animations.len()
            invariant
                i <= dorm_animations.len(),
                dorm == strings_view(dorm_animations@),
                mapping@.len() == i,
                entries_view(mapping@)
                    == tagged(dorm.take(i as int), SkinVariant::Dorm),
            decreases dorm_animations.len() - i,
        {
            let ghost before = mapping@;
            let name = dorm_animations[i].clone();
            mapping.push((name, SkinVariant::Dorm));
            proof {
                assert(mapping@ == before.push((name, SkinVariant::Dorm)));
                assert(entries_view(mapping@)[i as int] == (name@, SkinVariant::Dorm));
                assert(dorm[i as int] == name@);
                assert forall|j: int| 0 <= j < i implies #[trigger] entries_view(mapping@)[j]
                    == tagged(dorm.take(i + 1), SkinVariant::Dorm)[j] by {
                    assert(mapping@[j] == before[j]);
                    assert(entries_view(before)[j] == tagged(dorm.take(i as int), SkinVariant::Dorm)[j]);
                }
                assert(entries_view(mapping@) =~= tagged(dorm.take(i + 1), SkinVariant::Dorm));
            }
            i = i + 1;
        }
        assert(dorm.take(dorm.len() as int) =~= dorm);
        match &battle_animations {
            Some(battle) => {
                let ghost b = strings_view(battle@);
                let mut k: usize = 0;
                while k < battle.len()
                    invariant
                        k <= battle.len(),
                        b == strings_view(battle@),
                        dorm.len() == dorm_animations@.len(),
                        mapping@.len() == dorm.len() + k,
                        entries_view(mapping@)
                            == tagged(dorm, SkinVariant::Dorm) + tagged(b.take(k as int), SkinVariant::Battle),
                    decreases battle.len() - k,
                {
                    let ghost before = mapping@;
                    let name = battle[k].clone();
                    mapping.push((name, SkinVariant::Battle));
                    proof {
                        assert(mapping@ == before.push((name, SkinVariant::Battle)));
                        assert(entries_view(mapping@)[mapping@.len() - 1] == (name@, SkinVariant::Battle));
                        assert(b[k as int] == name@);
                        let goal = tagged(dorm, SkinVariant::Dorm) + tagged(b.take(k + 1), SkinVariant::Battle);
                        let prior = tagged(dorm, SkinVariant::Dorm) + tagged(b.take(k as int), SkinVariant::Battle);
                        assert forall|j: int| 0 <= j < before.len() implies #[trigger] entries_view(mapping@)[j]
                            == goal[j] by {
                            assert(mapping@[j] == before[j]);
                            assert(entries_view(before)[j] == prior[j]);
                        }
                        assert(entries_view(mapping@) =~= goal);
                    }
                    k = k + 1;
                }
                assert(b.take(b.len() as int) =~= b);
            },
            None => {},
        }
        let id = match skin_id {
            Some(s) => Some(s.to_owned()),
            None => None,
        };
        GeneralOperatorSkin {
            operator_id: operator_id.to_owned(),
            id,
            animation_mapping: mapping,
            active_skin_variant: SkinVariant::Dorm,
            active_ani: "Default".to_owned(),
            previous_ani: "Default".to_owned(),
        }
    }

    /// The id of the operator that wears the skin.
    pub fn operator_id(&self) -> (r: String)
        ensures
            r@ == self@.operator_id,
    {
        self.operator_id.clone()
    }

    /// The id of the skin, where it is not the operator's default skin.
    pub fn id(&self) -> (r: Option<String>)
        ensures
            match r {
                Some(s) => self@.id == Some(s@),
                None => self@.id is None,
            },
    {
        match &self.id {
            Some(s) => Some(s.clone()),
            None => None,
        }
    }

    /// The skeleton that plays the current animation.
    pub fn active_skin_variant(&self) -> (r: SkinVariant)
        ensures
            r == self@.active_variant,
    {
        self.active_skin_variant
    }

    /// The animation that plays now.
    pub fn active_ani(&self) -> (r: String)
        ensures
            r@ == self@.active_ani,
    {
        self.active_ani.clone()
    }

    /// The animation that played before the current one.
    pub fn previous_ani(&self) -> (r: String)
        ensures
            r@ == self@.previous_ani,
    {
        self.previous_ani.clone()
    }

    /// The names of all animations: those of the dorm skeleton, then those of
    /// the battle skeleton.
    pub fn animations(&self) -> (r: Vec<String>)
        ensures
            strings_view(r@) == entry_names(self@.entries),
            r@.len() == self@.entries.len(),
            forall|i: int| 0 <= i < r@.len() ==> #[trigger] r@[i]@ == self@.entries[i].0,
    {
        let mut r: Vec<String> = Vec::new();
        let ghost entries = self@.entries;
        let mut i: usize = 0;
        while i < self.animation_mapping.len()
            invariant
                i <= self.animation_mapping.len(),
                entries == self@.entries,
                r@.len() == i,
                strings_view(r@)
                    == entry_names(entries.take(i as int)),
            decreases self.animation_mapping.len() - i,
        {
            let ghost before = r@;
            let name = self.animation_mapping[i].0.clone();
            r.push(name);
            proof {
                assert(r@ == before.push(name));
                assert(entries[i as int].0 == name@);
                assert forall|j: int| 0 <= j < i implies #[trigger] strings_view(r@)[j]
                    == entry_names(entries.take(i + 1))[j] by {
                    assert(r@[j] == before[j]);
                    assert(strings_view(before)[j] == entry_names(entries.take(i as int))[j]);
                }
                assert(strings_view(r@) =~= entry_names(entries.take(i + 1)));
            }
            i = i + 1;
        }
        assert(entries.take(entries.len() as int) =~= entries);
        proof {
            lemma_entry_names(entries);
            assert forall|i: int| 0 <= i < r@.len() implies #[trigger] r@[i]@ == self@.entries[i].0 by {
                assert(strings_view(r@)[i] == r@[i]@);
            }
        }
        r
    }

    /// The skeleton that plays `animation`.
    pub fn skin_variant_from_animation(&self, animation: &str) -> (r: Result<SkinVariant, SkinError>)
        ensures
            match r {
                Ok(v) => mapping_of(self@.entries).contains_key(animation@)
                    && mapping_of(self@.entries)[animation@] == v,
                Err(e) => {
                    &&& !mapping_of(self@.entries).contains_key(animation@)
                    &&& e matches SkinError::AnimationNotFound(m)
                    &&& m@ == animation_not_found_message(animation@)
                },
            },
            r matches Ok(v) ==> exists|i: int|
                {
                    &&& 0 <= i < self@.entries.len()
                    &&& #[trigger] self@.entries[i] == (animation@, v)
                    &&& forall|j: int| i < j < self@.entries.len() ==> #[trigger] self@.entries[j].0 != animation@
                },
            r is Err ==> forall|i: int| 0 <= i < self@.entries.len() ==> #[trigger] self@.entries[i].0 != animation@,
    {
        let target = animation.to_owned();
        let ghost entries = self@.entries;
        let mut i: usize = self.animation_mapping.len();
        while i > 0
            invariant
                i <= self.animation_mapping.len(),
                entries == self@.entries,
                target@ == animation@,
                forall|j: int| i <= j < entries.len() ==> #[trigger] entries[j].0 != animation@,
            decreases i,
        {
            i = i - 1;
            if self.animation_mapping[i].0 == target {
                proof {
                    lemma_mapping_last_entry(entries, animation@, i as int);
                    assert(entries[i as int] == (animation@, self.animation_mapping@[i as int].1));
                }
                return Ok(self.animation_mapping[i].1);
            }
        }
        proof {
            lemma_mapping_last_entry(entries, animation@, -1);
        }
        let mut message = "\"animation\": ".to_owned();
        message.append(animation);
        Err(SkinError::AnimationNotFound(message))
    }

    /// Whether a request to play `ani` would have to drive the battle
    /// skeleton, which cannot be driven.
    pub fn battle_controller_needed(&self, ani: &str, force: bool) -> (r: bool)
        ensures
            r == !switch_supported(self@, ani@, force),
    {
        match self.skin_variant_from_animation(ani) {
            Ok(SkinVariant::Battle) => {
                let target = ani.to_owned();
                !(self.active_ani == target && !force)
            },
            _ => false,
        }
    }

    /// Requests that `ani` play. Where no skeleton has it, the skin stays as
    /// it was and the error names the animation. Otherwise the skeleton of
    /// `ani` becomes the active one; where `ani` plays already and the switch
    /// is not forced, nothing more changes; else `ani` becomes the current
    /// animation and the former one the previous animation.
    pub fn set_animation(&mut self, ani: &str, force: bool) -> (r: Result<AnimationChange, SkinError>)
        requires
            switch_supported(old(self)@, ani@, force),
        ensures
            match r {
                Err(e) => {
                    &&& set_animation_spec(old(self)@, ani@, force) is None
                    &&& final(self)@ == old(self)@
                    &&& e matches SkinError::AnimationNotFound(m)
                    &&& m@ == animation_not_found_message(ani@)
                },
                Ok(c) => {
                    &&& set_animation_spec(old(self)@, ani@, force) == Some(final(self)@)
                    &&& change_matches(old(self)@, ani@, force, c)
                },
            },
            r is Ok <==> exists|i: int| 0 <= i < old(self)@.entries.len() && #[trigger] old(self)@.entries[i].0 == ani@,
            final(self)@.entries == old(self)@.entries,
            final(self)@.operator_id == old(self)@.operator_id,
            final(self)@.id == old(self)@.id,
            (r is Ok && old(self)@.active_ani == ani@ && !force) ==> {
                &&& r == Ok::<AnimationChange, SkinError>(AnimationChange::Unchanged)
                &&& final(self)@.active_ani == old(self)@.active_ani
                &&& final(self)@.previous_ani == old(self)@.previous_ani
            },
            (r is Ok && !(old(self)@.active_ani == ani@ && !force)) ==> {
                &&& final(self)@.active_ani == ani@
                &&& final(self)@.previous_ani == old(self)@.active_ani
                &&& (force ==> r == Ok::<AnimationChange, SkinError>(AnimationChange::Restart))
                &&& (!force ==> (r matches Ok(AnimationChange::MixFrom(from)) && from@ == old(self)@.active_ani))
            },
    {
        proof {
            lemma_mapping_of_contains(self@.entries, ani@);
        }
        let variant = match self.skin_variant_from_animation(ani) {
            Ok(v) => v,
            Err(e) => {
                return Err(e);
            },
        };
        self.active_skin_variant = variant;
        let target = ani.to_owned();
        if self.active_ani == target && !force {
            return Ok(AnimationChange::Unchanged);
        }
        let from = self.active_ani.clone();
        let change = if force {
            AnimationChange::Restart
        } else {
            AnimationChange::MixFrom(from)
        };
        self.previous_ani = self.active_ani.clone();
        self.active_ani = target;
        Ok(change)
    }
}

/// Building the map from two runs of entries is building it from the first
/// and letting the second override it.
pub proof fn lemma_mapping_of_append(e1: Seq<(Seq<char>, SkinVariant)>, e2: Seq<(Seq<char>, SkinVariant)>)
    ensures
        mapping_of(e1 + e2) == mapping_of(e1).union_prefer_right(mapping_of(e2)),
    decreases e2.len(),
{
    if e2.len() == 0 {
        assert(e1 + e2 =~= e1);
        assert(mapping_of(e1).union_prefer_right(mapping_of(e2)) =~= mapping_of(e1));
    } else {
        assert((e1 + e2).drop_last() =~= e1 + e2.drop_last());
        assert((e1 + e2).last() == e2.last());
        lemma_mapping_of_append(e1, e2.drop_last());
        assert(mapping_of(e1 + e2) =~= mapping_of(e1).union_prefer_right(mapping_of(e2)));
    }
}

/// The map built from names tagged alike holds exactly those names, each with
/// that tag.
pub proof fn lemma_mapping_of_tagged(names: Seq<Seq<char>>, variant: SkinVariant)
    ensures
        forall|n: Seq<char>| #[trigger] mapping_of(tagged(names, variant)).contains_key(n) <==> names.contains(n),
        forall|n: Seq<char>| names.contains(n) ==> #[trigger] mapping_of(tagged(names, variant))[n] == variant,
    decreases names.len(),
{
    if names.len() > 0 {
        let shorter = names.drop_last();
        assert(tagged(names, variant).drop_last() =~= tagged(shorter, variant));
        lemma_mapping_of_tagged(shorter, variant);
        assert forall|n: Seq<char>| #[trigger] mapping_of(tagged(names, variant)).contains_key(n) <==> names.contains(n) by {
            if names.contains(n) && n != names.last() {
                let i = choose|i: int| 0 <= i < names.len() && names[i] == n;
                assert(shorter[i] == n);
            }
            if shorter.contains(n) {
                let i = choose|i: int| 0 <= i < shorter.len() && shorter[i] == n;
                assert(names[i] == n);
            }
            if n == names.last() {
                assert(names[names.len() - 1] == n);
            }
        }
        assert forall|n: Seq<char>| names.contains(n) implies #[trigger] mapping_of(tagged(names, variant))[n] == variant by {
            if n != names.last() {
                let i = choose|i: int| 0 <= i < names.len() && names[i] == n;
                assert(shorter[i] == n);
            }
        }
    }
}

/// In a new skin every animation name is known, and it plays on the skeleton
/// that has it; a name that both skeletons have plays on the battle one.
pub proof fn lemma_new_skin_mapping(dorm: Seq<Seq<char>>, battle: Option<Seq<Seq<char>>>, name: Seq<char>)
    ensures
        mapping_of(skin_entries(dorm, battle)).contains_key(name)
            <==> (dorm.contains(name) || (battle matches Some(b) && b.contains(name))),
        (battle matches Some(b) && b.contains(name)) ==> mapping_of(skin_entries(dorm, battle))[name] == SkinVariant::Battle,
        (dorm.contains(name) && !(battle matches Some(b) && b.contains(name)))
            ==> mapping_of(skin_entries(dorm, battle))[name] == SkinVariant::Dorm,
{
    lemma_mapping_of_tagged(dorm, SkinVariant::Dorm);
    match battle {
        Some(b) => {
            lemma_mapping_of_tagged(b, SkinVariant::Battle);
            lemma_mapping_of_append(tagged(dorm, SkinVariant::Dorm), tagged(b, SkinVariant::Battle));
        },
        None => {},
    }
}

/// Requesting, unforced, the animation that a request just switched to
/// changes nothing and asks for no skeleton work.
pub proof fn lemma_set_animation_idempotent(s: SkinView, ani: Seq<char>)
    requires
        set_animation_spec(s, ani, false) is Some,
    ensures
        set_animation_spec(set_animation_spec(s, ani, false)->0, ani, false) == set_animation_spec(s, ani, false),
        change_matches(set_animation_spec(s, ani, false)->0, ani, false, AnimationChange::Unchanged),
{
}

/// Switching to another animation and then to the previous one brings back
/// the animation that played first, and records the other as the previous.
pub proof fn lemma_back_to_previous(s: SkinView, ani: Seq<char>)
    requires
        set_animation_spec(s, ani, false) is Some,
        s.active_ani != ani,
        mapping_of(s.entries).contains_key(s.active_ani),
    ensures
        ({
            let t = set_animation_spec(s, ani, false)->0;
            &&& t.previous_ani == s.active_ani
            &&& set_animation_spec(t, t.previous_ani, false) == Some(
                SkinView { active_variant: mapping_of(s.entries)[s.active_ani], previous_ani: ani, ..s },
            )
        }),
{
}

/// An animation name is known to the map built from the entries exactly when
/// some entry carries it.
pub proof fn lemma_mapping_of_contains(entries: Seq<(Seq<char>, SkinVariant)>, name: Seq<char>)
    ensures
        mapping_of(entries).contains_key(name) <==> exists|i: int| 0 <= i < entries.len() && #[trigger] entries[i].0 == name,
    decreases entries.len(),
{
    if entries.len() > 0 {
        let shorter = entries.drop_last();
        lemma_mapping_of_contains(shorter, name);
        if exists|i: int| 0 <= i < entries.len() && #[trigger] entries[i].0 == name {
            let i = choose|i: int| 0 <= i < entries.len() && #[trigger] entries[i].0 == name;
            if i < entries.len() - 1 {
                assert(shorter[i].0 == name);
            }
        }
        if exists|i: int| 0 <= i < shorter.len() && #[trigger] shorter[i].0 == name {
            let i = choose|i: int| 0 <= i < shorter.len() && #[trigger] shorter[i].0 == name;
            assert(entries[i].0 == name);
        }
    }
}

/// The names of the entries are those of every entry, in order.
pub proof fn lemma_entry_names(v: Seq<(Seq<char>, SkinVariant)>)
    ensures
        entry_names(v).len() == v.len(),
        forall|i: int| 0 <= i < v.len() ==> #[trigger] entry_names(v)[i] == v[i].0,
{
}

/// A request succeeds exactly for a name that some skeleton has; whatever
/// happens, the animation list, the operator and the skin id stay.
pub proof fn lemma_switch_known_names(s: SkinView, ani: Seq<char>, force: bool)
    ensures
        set_animation_spec(s, ani, force) is Some <==> exists|i: int| 0 <= i < s.entries.len() && #[trigger] s.entries[i].0 == ani,
        set_animation_spec(s, ani, force) matches Some(t) ==> {
            &&& t.entries == s.entries
            &&& t.operator_id == s.operator_id
            &&& t.id == s.id
        },
{
    lemma_mapping_of_contains(s.entries, ani);
}

/// A switch that does not return early, forced or not, makes the requested
/// animation current and records the one that played before it as previous;
/// one that returns early keeps both.
pub proof fn lemma_switch_records_previous(s: SkinView, ani: Seq<char>, force: bool)
    requires
        set_animation_spec(s, ani, force) is Some,
    ensures
        !(s.active_ani == ani && !force) ==> {
            &&& set_animation_spec(s, ani, force)->0.active_ani == ani
            &&& set_animation_spec(s, ani, force)->0.previous_ani == s.active_ani
        },
        (s.active_ani == ani && !force) ==> {
            &&& set_animation_spec(s, ani, force)->0.active_ani == s.active_ani
            &&& set_animation_spec(s, ani, force)->0.previous_ani == s.previous_ani
        },
{
}

/// The skeleton work of a switch: nothing exactly when the animation plays
/// already and the switch is not forced; a restart exactly when forced;
/// otherwise a blend from the animation that played.
pub proof fn lemma_switch_change(s: SkinView, ani: Seq<char>, force: bool, c: AnimationChange)
    requires
        change_matches(s, ani, force, c),
    ensures
        (c == AnimationChange::Unchanged) <==> (s.active_ani == ani && !force),
        (c == AnimationChange::Restart) <==> force,
        c matches AnimationChange::MixFrom(from) ==> (from@ == s.active_ani && !force && s.active_ani != ani),
{
}

} // verus!
