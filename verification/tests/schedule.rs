use atacc_inscription::schedule::{creneaux_actuels, jours, slots_for_day, weekly_grid, Creneau};

fn slot(jour: &str, debut: &str) -> Creneau {
    Creneau { jour: jour.to_string(), debut: debut.to_string(), fin: "x".to_string(), matiere: "m".to_string() }
}

#[test]
fn week_days_in_order() {
    assert_eq!(jours(), vec!["Lundi", "Mardi", "Mercredi", "Jeudi", "Vendredi", "Samedi", "Dimanche"]);
}

#[test]
fn no_slot_published_yet() {
    assert!(creneaux_actuels().is_empty());
}

#[test]
fn slots_of_a_day_keep_their_order() {
    let c = vec![slot("Mardi", "1"), slot("Jeudi", "2"), slot("Mardi", "3")];
    assert_eq!(slots_for_day(&c, "Mardi"), vec![slot("Mardi", "1"), slot("Mardi", "3")]);
    assert_eq!(slots_for_day(&c, "Lundi"), vec![]);
}

#[test]
fn grid_has_a_column_per_day() {
    let c = vec![slot("Dimanche", "1"), slot("Funday", "2"), slot("Lundi", "3")];
    let g = weekly_grid(&c);
    assert_eq!(g.len(), 7);
    assert_eq!(g[0].jour, "Lundi");
    assert_eq!(g[0].creneaux, vec![slot("Lundi", "3")]);
    assert_eq!(g[6].jour, "Dimanche");
    assert_eq!(g[6].creneaux, vec![slot("Dimanche", "1")]);
    let shown: usize = g.iter().map(|d| d.creneaux.len()).sum();
    assert_eq!(shown, 2);
}

#[test]
fn current_grid_is_empty() {
    let g = weekly_grid(&creneaux_actuels());
    assert_eq!(g.len(), 7);
    assert!(g.iter().all(|d| d.creneaux.is_empty()));
}
