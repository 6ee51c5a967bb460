//! The weekly tutoring schedule: its slots and how they are laid out by day.

use vstd::prelude::*;
use vstd::string::*;

use crate::text::same_text;

verus! {

/// A tutoring slot in the weekly schedule. `jour` is one of [`jours`].
#[derive(Debug, PartialEq, Eq)]
pub struct Creneau {
    pub jour: String,
    pub debut: String,
    pub fin: String,
    pub matiere: String,
}

impl Creneau {
    /// A copy of this slot.
    pub fn duplicate(&self) -> (c: Creneau)
        ensures
            c == *self,
    {
        Creneau {
            jour: self.jour.clone(),
            debut: self.debut.clone(),
            fin: self.fin.clone(),
            matiere: self.matiere.clone(),
        }
    }
}

/// The days of the week, in display order.
pub open spec fn week_days() -> Seq<Seq<char>> {
    seq![
        "Lundi"@,
        "Mardi"@,
        "Mercredi"@,
        "Jeudi"@,
        "Vendredi"@,
        "Samedi"@,
        "Dimanche"@,
    ]
}

/// The days of the week, in display order.
pub fn jours() -> (v: Vec<String>)
    ensures
        v@.len() == week_days().len(),
        forall|i: int| 0 <= i < v@.len() ==> #[trigger] v@[i]@ == week_days()[i],
{
    let mut v: Vec<String> = Vec::new();
    v.push(String::from_str("Lundi"));
    v.push(String::from_str("Mardi"));
    v.push(String::from_str("Mercredi"));
    v.push(String::from_str("Jeudi"));
    v.push(String::from_str("Vendredi"));
    v.push(String::from_str("Samedi"));
    v.push(String::from_str("Dimanche"));
    v
}

/// The slots currently published: none yet, since no tutoring slot has
/// been scheduled. This is the one place to change once slots exist.
pub fn creneaux_actuels() -> (v: Vec<Creneau>)
    ensures
        v@.len() == 0,
{
    Vec::new()
}

/// The slots of `s` that fall on `day`, in their order.
pub open spec fn slots_on(s: Seq<Creneau>, day: Seq<char>) -> Seq<Creneau>
    decreases s.len(),
{
    if s.len() == 0 {
        Seq::empty()
    } else if s.last().jour@ == day {
        slots_on(s.drop_last(), day).push(s.last())
    } else {
        slots_on(s.drop_last(), day)
    }
}

/// A column lists exactly the slots of its day: every slot it holds falls on
/// that day, and every slot of that day is in it.
pub proof fn lemma_column_holds_exactly_its_day(s: Seq<Creneau>, day: Seq<char>)
    ensures
        forall|k: int| 0 <= k < slots_on(s, day).len() ==> (#[trigger] slots_on(s, day)[k]).jour@ == day,
        forall|i: int| 0 <= i < s.len() && (#[trigger] s[i]).jour@ == day ==> slots_on(s, day).contains(s[i]),
    decreases s.len(),
{
    if s.len() > 0 {
        let init = s.drop_last();
        lemma_column_holds_exactly_its_day(init, day);
        assert forall|i: int| 0 <= i < s.len() && (#[trigger] s[i]).jour@ == day implies slots_on(s, day).contains(s[i]) by {
            if i < s.len() - 1 {
                assert(init[i] == s[i]);
                let k = choose|k: int| 0 <= k < slots_on(init, day).len() && slots_on(init, day)[k] == init[i];
                assert(slots_on(s, day)[k] == s[i]);
            } else {
                assert(slots_on(s, day).last() == s[i]);
            }
        }
    }
}

/// Whether a slot falls on `day`.
pub open spec fn falls_on(day: Seq<char>) -> spec_fn(Creneau) -> bool {
    |c: Creneau| c.jour@ == day
}

/// A column is the subsequence of the slots that fall on its day, in their
/// order and with repeats kept: it is the slots filtered by their day.
pub proof fn lemma_column_is_filter(s: Seq<Creneau>, day: Seq<char>)
    ensures
        slots_on(s, day) == s.filter(falls_on(day)),
        forall|c: Creneau| #[trigger] falls_on(day)(c) == (c.jour@ == day),
    decreases s.len(),
{
    reveal(Seq::filter);
    if s.len() > 0 {
        lemma_column_is_filter(s.drop_last(), day);
    }
}

/// The slots of `creneaux` that fall on `day`, in their order.
pub fn slots_for_day(creneaux: &Vec<Creneau>, day: &str) -> (r: Vec<Creneau>)
    ensures
        r@ == slots_on(creneaux@, day@),
        r@ == creneaux@.filter(falls_on(day@)),
{
    proof {
        lemma_column_is_filter(creneaux@, day@);
    }
    let mut r: Vec<Creneau> = Vec::new();
    let mut i: usize = 0;
    while i < creneaux.len()
        invariant
            i <= creneaux@.len(),
            r@ == slots_on(creneaux@.take(i as int), day@),
        decreases creneaux.len() - i,
    {
        assert(creneaux@.take(i + 1).drop_last() == creneaux@.take(i as int));
        if same_text(creneaux[i].jour.as_str(), day) {
            r.push(creneaux[i].duplicate());
        }
        i = i + 1;
    }
    assert(creneaux@.take(creneaux@.len() as int) == creneaux@);
    r
}

/// One column of the schedule: a day and its slots.
pub struct DaySchedule {
    pub jour: String,
    pub creneaux: Vec<Creneau>,
}

/// The schedule laid out by day: one column per day of the week, in order,
/// each holding the slots of that day in their order. A slot whose day is not
/// one of the seven appears nowhere.
pub fn weekly_grid(creneaux: &Vec<Creneau>) -> (g: Vec<DaySchedule>)
    ensures
        g@.len() == week_days().len(),
        forall|i: int|
            0 <= i < g@.len() ==> (#[trigger] g@[i]).jour@ == week_days()[i] && g@[i].creneaux@
                == slots_on(creneaux@, week_days()[i]),
        forall|i: int|
            0 <= i < g@.len() ==> (#[trigger] g@[i]).creneaux@ == creneaux@.filter(
                falls_on(week_days()[i]),
            ),
{
    let days = jours();
    let mut g: Vec<DaySchedule> = Vec::new();
    let mut i: usize = 0;
    while i < days.len()
        invariant
            i <= days@.len() == week_days().len(),
            forall|k: int| 0 <= k < days@.len() ==> #[trigger] days@[k]@ == week_days()[k],
            g@.len() == i,
            forall|k: int|
                0 <= k < i ==> (#[trigger] g@[k]).jour@ == week_days()[k] && g@[k].creneaux@
                    == slots_on(creneaux@, week_days()[k]) && g@[k].creneaux@ == creneaux@.filter(
                    falls_on(week_days()[k]),
                ),
        decreases days.len() - i,
    {
        proof {
            lemma_column_is_filter(creneaux@, week_days()[i as int]);
        }
        let slots = slots_for_day(creneaux, days[i].as_str());
        g.push(DaySchedule { jour: days[i].clone(), creneaux: slots });
        i = i + 1;
    }
    g
}

} // verus!
