use vstd::prelude::*;

use crate::text::{is_blank, lemma_text_lt_total, lemma_text_lt_transitive, str_equals, str_is_blank, text_less, text_lt};

verus! {

/// An opaque, non-blank stable identifier for one registered skill.
#[derive(Debug, Hash, PartialEq, Eq, PartialOrd, Ord)]
pub struct SkillId(String);

impl View for SkillId {
    type V = Seq<char>;

    closed spec fn view(&self) -> Seq<char> {
        self.0@
    }
}

impl SkillId {
    #[verifier::type_invariant]
    closed spec fn inv(self) -> bool {
        !is_blank(self.0@)
    }

    pub fn new(value: String) -> (r: Result<Self, SkillIdError>)
        ensures
            r is Ok <==> !is_blank(value@),
            r matches Ok(v) ==> v@ == value@,
    {
        if str_is_blank(value.as_str()) {
            Err(SkillIdError)
        } else {
            Ok(SkillId(value))
        }
    }

    pub fn as_str(&self) -> (r: &str)
        ensures
            r@ == self@,
            !is_blank(r@),
    {
        proof {
            use_type_invariant(self);
        }
        self.0.as_str()
    }

    /// Exact textual equality of two values.
    pub fn same_as(&self, other: &Self) -> (r: bool)
        ensures
            r == (self@ == other@),
    {
        self.0 == other.0
    }
}

impl Clone for SkillId {
    fn clone(&self) -> (r: Self)
        ensures
            r == *self,
    {
        proof {
            use_type_invariant(self);
        }
        SkillId(self.0.clone())
    }
}

#[derive(Clone, Copy, Debug, PartialEq, Eq, Structural)]
pub struct SkillIdError;

impl SkillIdError {
    pub fn to_string(&self) -> (r: String)
        ensures
            r@ == "skill id must not be blank"@,
    {
        "skill id must not be blank".to_owned()
    }
}

} // verus!

verus! {

/// Immutable exact instruction text owned by one process-local registered skill.
///
/// It has no `Debug`: its diagnostic text is `describe`, which shows the
/// instructions' length and never the instructions themselves.
#[derive(PartialEq, Eq)]
pub struct RegisteredSkill {
    id: SkillId,
    instructions: String,
}

pub struct SkillView {
    pub id: Seq<char>,
    pub instructions: Seq<char>,
}

impl View for RegisteredSkill {
    type V = SkillView;

    closed spec fn view(&self) -> SkillView {
        SkillView { id: self.id@, instructions: self.instructions@ }
    }
}

impl Clone for RegisteredSkill {
    fn clone(&self) -> (r: Self)
        ensures
            r@ == self@,
    {
        RegisteredSkill { id: self.id.clone(), instructions: self.instructions.clone() }
    }
}

impl RegisteredSkill {
    pub fn new(id: SkillId, instructions: String) -> (r: Self)
        ensures
            r@ == (SkillView { id: id@, instructions: instructions@ }),
    {
        RegisteredSkill { id, instructions }
    }

    pub fn id(&self) -> (r: &SkillId)
        ensures
            r@ == self@.id,
    {
        &self.id
    }

    pub fn instructions(&self) -> (r: &str)
        ensures
            r@ == self@.instructions,
    {
        self.instructions.as_str()
    }
}

/// A duplicate exact skill identity rejected during atomic registration.
#[derive(Debug, PartialEq, Eq)]
#[non_exhaustive]
pub enum SkillRegistryError {
    DuplicateId { skill_id: SkillId },
}

pub open spec fn skills_view(s: Seq<RegisteredSkill>) -> Seq<SkillView> {
    s.map_values(|k: RegisteredSkill| k@)
}

/// Whether some skill of `s` carries the identity `id`.
pub open spec fn skill_registered(s: Seq<SkillView>, id: Seq<char>) -> bool {
    exists|k: int| 0 <= k < s.len() && #[trigger] s[k].id == id
}

/// Whether the skills of `s` stand in strictly ascending identity order.
pub open spec fn skills_ascending(s: Seq<SkillView>) -> bool {
    forall|i: int, j: int| 0 <= i < j < s.len() ==> text_lt(#[trigger] s[i].id, #[trigger] s[j].id)
}

/// Whether batch entry `i` repeats an identity that is already registered or that
/// an earlier batch entry carries.
pub open spec fn skill_collides_at(registered: Seq<SkillView>, batch: Seq<SkillView>, i: int) -> bool {
    skill_registered(registered, batch[i].id) || exists|j: int|
        0 <= j < i && #[trigger] batch[j].id == batch[i].id
}

fn skill_position(items: &Vec<RegisteredSkill>, id: &str) -> (r: Option<usize>)
    ensures
        r is Some <==> skill_registered(skills_view(items@), id@),
        r matches Some(k) ==> k < items@.len() && items@[k as int]@.id == id@,
{
    let ghost v = skills_view(items@);
    let mut i: usize = 0;
    while i < items.len()
        invariant
            i <= items@.len(),
            v == skills_view(items@),
            forall|k: int| 0 <= k < i ==> v[k].id != id@,
        decreases items@.len() - i,
    {
        assert(v[i as int] == items@[i as int]@);
        if str_equals(items[i].id().as_str(), id) {
            return Some(i);
        }
        i = i + 1;
    }
    None
}

/// Inserts a skill with a new identity at its ascending position.
fn insert_skill(items: &mut Vec<RegisteredSkill>, s: RegisteredSkill)
    requires
        skills_ascending(skills_view(old(items)@)),
        !skill_registered(skills_view(old(items)@), s@.id),
    ensures
        skills_ascending(skills_view(final(items)@)),
        forall|x: SkillView|
            skills_view(final(items)@).contains(x) <==> (skills_view(old(items)@).contains(x) || x
                == s@),
{
    let ghost before = skills_view(items@);
    let mut k: usize = 0;
    let mut found = false;
    while k < items.len() && !found
        invariant
            k <= items@.len(),
            before == skills_view(items@),
            skills_ascending(before),
            !skill_registered(before, s@.id),
            forall|j: int| 0 <= j < k ==> text_lt(#[trigger] before[j].id, s@.id),
            found ==> k < items@.len() && text_lt(s@.id, before[k as int].id),
        decreases items@.len() - k + (if found { 0int } else { 1int }),
    {
        assert(before[k as int] == items@[k as int]@);
        if text_less(s.id().as_str(), items[k].id().as_str()) {
            found = true;
        } else {
            proof {
                assert(before[k as int].id != s@.id);
                lemma_text_lt_total(before[k as int].id, s@.id);
            }
            k = k + 1;
        }
    }
    let ghost sv = s@;
    items.insert(k, s);
    let ghost after = skills_view(items@);
    assert(after =~= before.insert(k as int, sv));
    assert forall|i: int, j: int| 0 <= i < j < after.len() implies text_lt(
        #[trigger] after[i].id,
        #[trigger] after[j].id,
    ) by {
        if j < k {
        } else if j == k {
        } else if i == k {
            if j > k + 1 {
                lemma_text_lt_transitive(sv.id, before[k as int].id, before[j - 1].id);
            }
        } else if i < k {
            if j > k + 1 {
                lemma_text_lt_transitive(sv.id, before[k as int].id, before[j - 1].id);
            }
            lemma_text_lt_transitive(before[i].id, sv.id, before[j - 1].id);
        }
    }
    assert forall|x: SkillView| after.contains(x) <==> (before.contains(x) || x == sv) by {
        if after.contains(x) {
            let i = choose|i: int| 0 <= i < after.len() && after[i] == x;
            if i < k {
                assert(before[i] == x);
            } else if i > k {
                assert(before[i - 1] == x);
            }
        }
        if before.contains(x) {
            let i = choose|i: int| 0 <= i < before.len() && before[i] == x;
            if i < k {
                assert(after[i] == x);
            } else {
                assert(after[i + 1] == x);
            }
        }
        if x == sv {
            assert(after[k as int] == x);
        }
    }
}

/// A caller-owned, process-local deterministic directory of inert skill
/// instructions, kept in ascending exact-identity order.
pub struct SkillRegistry {
    skills: Vec<RegisteredSkill>,
}

impl View for SkillRegistry {
    type V = Seq<SkillView>;

    closed spec fn view(&self) -> Seq<SkillView> {
        skills_view(self.skills@)
    }
}

impl Default for SkillRegistry {
    fn default() -> (r: Self)
        ensures
            r@ == Seq::<SkillView>::empty(),
    {
        SkillRegistry::new()
    }
}

impl SkillRegistry {
    #[verifier::type_invariant]
    closed spec fn inv(self) -> bool {
        skills_ascending(skills_view(self.skills@))
    }

    pub fn new() -> (r: Self)
        ensures
            r@ == Seq::<SkillView>::empty(),
    {
        let r = SkillRegistry { skills: Vec::new() };
        assert(r@ =~= Seq::<SkillView>::empty());
        r
    }

    /// Registers one homogeneous batch atomically without replacing existing
    /// instructions; the first batch entry that repeats an identity is reported.
    pub fn register_all(&mut self, skills: Vec<RegisteredSkill>) -> (r: Result<(), SkillRegistryError>)
        ensures
            r is Err <==> exists|i: int|
                0 <= i < skills@.len() && #[trigger] skill_collides_at(
                    old(self)@,
                    skills_view(skills@),
                    i,
                ),
            r matches Err(SkillRegistryError::DuplicateId { skill_id }) ==> {
                &&& exists|i: int|
                    0 <= i < skills@.len() && skills@[i]@.id == skill_id@ && #[trigger] skill_collides_at(
                        old(self)@,
                        skills_view(skills@),
                        i,
                    ) && forall|j: int|
                        0 <= j < i ==> !#[trigger] skill_collides_at(
                            old(self)@,
                            skills_view(skills@),
                            j,
                        )
                &&& final(self)@ == old(self)@
            },
            r is Ok ==> forall|x: SkillView|
                final(self)@.contains(x) <==> (old(self)@.contains(x) || skills_view(
                    skills@,
                ).contains(x)),
            skills_ascending(final(self)@),
    {
        proof {
            use_type_invariant(&*self);
        }
        let ghost reg = self@;
        let ghost batch = skills_view(skills@);
        let mut i: usize = 0;
        while i < skills.len()
            invariant
                i <= skills@.len(),
                reg == self@,
                batch == skills_view(skills@),
                skills_ascending(reg),
                forall|j: int| 0 <= j < i ==> !#[trigger] skill_collides_at(reg, batch, j),
            decreases skills@.len() - i,
        {
            assert(batch[i as int] == skills@[i as int]@);
            let id = skills[i].id().as_str();
            let mut collides = skill_position(&self.skills, id).is_some();
            let mut j: usize = 0;
            while j < i
                invariant
                    j <= i,
                    i < skills@.len(),
                    batch == skills_view(skills@),
                    id@ == batch[i as int].id,
                    collides == (skill_registered(reg, id@) || exists|k: int|
                        0 <= k < j && #[trigger] batch[k].id == id@),
                decreases i - j,
            {
                assert(batch[j as int] == skills@[j as int]@);
                if !collides && str_equals(skills[j].id().as_str(), id) {
                    collides = true;
                    proof {
                        assert(batch[j as int].id == id@);
                    }
                }
                proof {
                    if !collides {
                        assert forall|k: int| 0 <= k < j + 1 implies #[trigger] batch[k].id != id@ by {
                            if k < j {
                                if batch[k].id == id@ {
                                    assert(exists|k2: int| 0 <= k2 < j && #[trigger] batch[k2].id == id@);
                                }
                            }
                        }
                    } else if !skill_registered(reg, id@) {
                        if !(exists|k: int| 0 <= k < j && #[trigger] batch[k].id == id@) {
                            assert(batch[j as int].id == id@);
                        }
                    }
                }
                j = j + 1;
            }
            assert(collides == skill_collides_at(reg, batch, i as int));
            if collides {
                return Err(SkillRegistryError::DuplicateId { skill_id: skills[i].id().clone() });
            }
            i = i + 1;
        }
        let mut items: Vec<RegisteredSkill> = Vec::new();
        std::mem::swap(&mut items, &mut self.skills);
        let mut i: usize = 0;
        while i < skills.len()
            invariant
                i <= skills@.len(),
                batch == skills_view(skills@),
                skills_ascending(skills_view(items@)),
                forall|j: int| 0 <= j < skills@.len() ==> !#[trigger] skill_collides_at(reg, batch, j),
                forall|x: SkillView|
                    skills_view(items@).contains(x) <==> (reg.contains(x) || batch.subrange(
                        0,
                        i as int,
                    ).contains(x)),
            decreases skills@.len() - i,
        {
            assert(batch[i as int] == skills@[i as int]@);
            proof {
                assert(!skill_collides_at(reg, batch, i as int));
                if skill_registered(skills_view(items@), batch[i as int].id) {
                    let k = choose|k: int|
                        0 <= k < skills_view(items@).len() && #[trigger] skills_view(items@)[k].id
                            == batch[i as int].id;
                    let x = skills_view(items@)[k];
                    assert(skills_view(items@).contains(x));
                    if reg.contains(x) {
                        let q = choose|q: int| 0 <= q < reg.len() && reg[q] == x;
                        assert(reg[q].id == batch[i as int].id);
                    } else {
                        let q = choose|q: int| 0 <= q < i && batch.subrange(0, i as int)[q] == x;
                        assert(batch[q].id == batch[i as int].id);
                    }
                }
            }
            let ghost earlier = skills_view(items@);
            let s = skills[i].clone();
            let ghost sv = s@;
            insert_skill(&mut items, s);
            proof {
                let prefix = batch.subrange(0, i as int);
                let longer = batch.subrange(0, i + 1);
                assert(longer =~= prefix.push(batch[i as int]));
                assert forall|x: SkillView|
                    skills_view(items@).contains(x) <==> (reg.contains(x) || longer.contains(x)) by {
                    assert(earlier.contains(x) <==> (reg.contains(x) || prefix.contains(x)));
                    assert(skills_view(items@).contains(x) <==> (earlier.contains(x) || x == sv));
                    assert(sv == batch[i as int]);
                    if prefix.contains(x) {
                        let q = choose|q: int| 0 <= q < prefix.len() && prefix[q] == x;
                        assert(longer[q] == x);
                    }
                    if x == batch[i as int] {
                        assert(longer[i as int] == x);
                    }
                    if longer.contains(x) {
                        let q = choose|q: int| 0 <= q < longer.len() && longer[q] == x;
                        if q < i {
                            assert(prefix[q] == x);
                        }
                    }
                }
            }
            i = i + 1;
        }
        assert(batch.subrange(0, skills@.len() as int) =~= batch);
        self.skills = items;
        Ok(())
    }

    pub fn get(&self, skill_id: &SkillId) -> (r: Option<&RegisteredSkill>)
        ensures
            r is Some <==> skill_registered(self@, skill_id@),
            r matches Some(s) ==> self@.contains(s@) && s@.id == skill_id@,
    {
        match skill_position(&self.skills, skill_id.as_str()) {
            Some(k) => {
                assert(self@[k as int] == self.skills@[k as int]@);
                Some(&self.skills[k])
            },
            None => None,
        }
    }

    /// The registered skills in ascending exact-identity order.
    pub fn skills(&self) -> (r: &[RegisteredSkill])
        ensures
            skills_view(r@) == self@,
            skills_ascending(self@),
    {
        proof {
            use_type_invariant(self);
        }
        self.skills.as_slice()
    }
}

} // verus!
