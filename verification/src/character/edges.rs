//! Edges: the special abilities of a character. Some are switches, some come
//! in a normal and an improved tier.

use vstd::prelude::*;
use crate::stats::BoolStat;

verus! {

/// An edge with two tiers.
#[derive(Debug, Clone, Copy, PartialEq, Eq, Hash, Structural)]
pub enum Edge3 {
    Off,
    Normal,
    Improved,
}

impl Default for Edge3 {
    fn default() -> (r: Self)
        ensures
            r == Edge3::Off,
    {
        Edge3::Off
    }
}

/// Which tiered edge an edit or a label is about.
#[derive(Debug, Clone, Copy, PartialEq, Eq, Structural)]
pub enum Edge3Info {
    Blitzhieb,
    Berserker,
    Riposte,
    Tuchfuhlung,
    Lebenskraft,
    KuhlerKopf,
}

/// Which switch edge an edit or a label is about.
#[derive(Debug, Clone, Copy, PartialEq, Eq, Structural)]
pub enum Edge2Info {
    Ubertolpeln,
    Erbarmungslos,
    MachtigerHieb,
    Kampfreflexe,
    Schnell,
    Erstschlag,
    BeidhandigerKampf,
    Beidhandig,
    FechtenMit2Waffen,
    Kampfkunstler,
    Rundumschlag,
}

impl Edge3 {
    /// One tier up; `Improved` stays.
    pub open spec fn next(self) -> Edge3 {
        match self {
            Edge3::Off => Edge3::Normal,
            Edge3::Normal => Edge3::Improved,
            Edge3::Improved => Edge3::Improved,
        }
    }

    /// One tier down; `Off` stays.
    pub open spec fn prev(self) -> Edge3 {
        match self {
            Edge3::Off => Edge3::Off,
            Edge3::Normal => Edge3::Off,
            Edge3::Improved => Edge3::Normal,
        }
    }

    pub fn decrement(&mut self)
        ensures
            *final(self) == old(self).prev(),
    {
        let new = match *self {
            Edge3::Off => Edge3::Off,
            Edge3::Normal => Edge3::Off,
            Edge3::Improved => Edge3::Normal,
        };
        *self = new;
    }

    pub fn increment(&mut self)
        ensures
            *final(self) == old(self).next(),
    {
        let new = match *self {
            Edge3::Off => Edge3::Normal,
            Edge3::Normal => Edge3::Improved,
            Edge3::Improved => Edge3::Improved,
        };
        *self = new;
    }

    /// Every tier, lowest first.
    pub fn possible_values() -> (r: Vec<Edge3>)
        ensures
            r@ == seq![Edge3::Off, Edge3::Normal, Edge3::Improved],
    {
        vec![Edge3::Off, Edge3::Normal, Edge3::Improved]
    }

    /// The label of this tier of the edge `info`.
    pub open spec fn label(self, info: Edge3Info) -> Seq<char> {
        match (self, info) {
            (Edge3::Off, _) => "Nein"@,
            (Edge3::Normal, Edge3Info::Blitzhieb) => "Blitzhieb"@,
            (Edge3::Improved, Edge3Info::Blitzhieb) => "Verb. Blitzhieb"@,
            (Edge3::Normal, Edge3Info::Berserker) => "Berserker"@,
            (Edge3::Improved, Edge3Info::Berserker) => "Berserker Sofort"@,
            (Edge3::Normal, Edge3Info::Riposte) => "Riposte"@,
            (Edge3::Improved, Edge3Info::Riposte) => "Verb. Riposte"@,
            (Edge3::Normal, Edge3Info::Tuchfuhlung) => "Tuchfühlung"@,
            (Edge3::Improved, Edge3Info::Tuchfuhlung) => "Meisterl. Tuchfühlung"@,
            (Edge3::Normal, Edge3Info::Lebenskraft) => "Lebenskraft"@,
            (Edge3::Improved, Edge3Info::Lebenskraft) => "Noch mehr Lebenskraft"@,
            (Edge3::Normal, Edge3Info::KuhlerKopf) => "Kühler Kopf"@,
            (Edge3::Improved, Edge3Info::KuhlerKopf) => "Kühlerer Kopf"@,
        }
    }

    pub fn as_str(self, info: Edge3Info) -> (r: &'static str)
        ensures
            r@ == self.label(info),
    {
        match (self, info) {
            (Edge3::Off, _) => "Nein",
            (Edge3::Normal, Edge3Info::Blitzhieb) => "Blitzhieb",
            (Edge3::Improved, Edge3Info::Blitzhieb) => "Verb. Blitzhieb",
            (Edge3::Normal, Edge3Info::Berserker) => "Berserker",
            (Edge3::Improved, Edge3Info::Berserker) => "Berserker Sofort",
            (Edge3::Normal, Edge3Info::Riposte) => "Riposte",
            (Edge3::Improved, Edge3Info::Riposte) => "Verb. Riposte",
            (Edge3::Normal, Edge3Info::Tuchfuhlung) => "Tuchfühlung",
            (Edge3::Improved, Edge3Info::Tuchfuhlung) => "Meisterl. Tuchfühlung",
            (Edge3::Normal, Edge3Info::Lebenskraft) => "Lebenskraft",
            (Edge3::Improved, Edge3Info::Lebenskraft) => "Noch mehr Lebenskraft",
            (Edge3::Normal, Edge3Info::KuhlerKopf) => "Kühler Kopf",
            (Edge3::Improved, Edge3Info::KuhlerKopf) => "Kühlerer Kopf",
        }
    }
}

/// The edges of one character.
#[derive(Debug, Clone, Copy, PartialEq, Eq, Hash, Structural)]
pub struct Edges {
    pub lebenskraft: Edge3,
    pub blitzhieb: Edge3,
    pub berserker: Edge3,
    pub riposte: Edge3,
    pub tuchfuhlung: Edge3,
    pub kampfreflexe: BoolStat,
    pub erstschlag: BoolStat,
    pub beidhandiger_kampf: BoolStat,
    pub beidhandig: BoolStat,
    pub fechten_m2w: BoolStat,
    pub ubertolpeln: BoolStat,
    pub erbarmungslos: BoolStat,
    pub machtiger_hieb: BoolStat,
    pub schnell: BoolStat,
    pub kampfkunstler: BoolStat,
    pub kuhler_kopf: Edge3,
    pub rundumschlag: BoolStat,
}

impl Edges {
    /// A character without any edge.
    pub open spec fn bare() -> Edges {
        Edges {
            lebenskraft: Edge3::Off,
            blitzhieb: Edge3::Off,
            berserker: Edge3::Off,
            riposte: Edge3::Off,
            tuchfuhlung: Edge3::Off,
            kampfreflexe: BoolStat(false),
            erstschlag: BoolStat(false),
            beidhandiger_kampf: BoolStat(false),
            beidhandig: BoolStat(false),
            fechten_m2w: BoolStat(false),
            ubertolpeln: BoolStat(false),
            erbarmungslos: BoolStat(false),
            machtiger_hieb: BoolStat(false),
            schnell: BoolStat(false),
            kampfkunstler: BoolStat(false),
            kuhler_kopf: Edge3::Off,
            rundumschlag: BoolStat(false),
        }
    }

    /// The tiered edges in the order in which a sheet lists them.
    pub fn edge3_iter() -> (r: Vec<Edge3Info>)
        ensures
            r@ == seq![
                Edge3Info::Berserker,
                Edge3Info::Tuchfuhlung,
                Edge3Info::Lebenskraft,
                Edge3Info::Blitzhieb,
                Edge3Info::Riposte,
                Edge3Info::KuhlerKopf,
            ],
    {
        vec![
            Edge3Info::Berserker,
            Edge3Info::Tuchfuhlung,
            Edge3Info::Lebenskraft,
            Edge3Info::Blitzhieb,
            Edge3Info::Riposte,
            Edge3Info::KuhlerKopf,
        ]
    }

    /// The switch edges in the order in which a sheet lists them.
    pub fn edge2_iter() -> (r: Vec<Edge2Info>)
        ensures
            r@ == seq![
                Edge2Info::Schnell,
                Edge2Info::Rundumschlag,
                Edge2Info::Beidhandig,
                Edge2Info::BeidhandigerKampf,
                Edge2Info::FechtenMit2Waffen,
                Edge2Info::Ubertolpeln,
                Edge2Info::MachtigerHieb,
                Edge2Info::Erbarmungslos,
                Edge2Info::Kampfreflexe,
                Edge2Info::Kampfkunstler,
                Edge2Info::Erstschlag,
            ],
    {
        vec![
            Edge2Info::Schnell,
            Edge2Info::Rundumschlag,
            Edge2Info::Beidhandig,
            Edge2Info::BeidhandigerKampf,
            Edge2Info::FechtenMit2Waffen,
            Edge2Info::Ubertolpeln,
            Edge2Info::MachtigerHieb,
            Edge2Info::Erbarmungslos,
            Edge2Info::Kampfreflexe,
            Edge2Info::Kampfkunstler,
            Edge2Info::Erstschlag,
        ]
    }
}

impl Default for Edges {
    fn default() -> (r: Self)
        ensures
            r == Edges::bare(),
    {
        Edges {
            lebenskraft: Edge3::Off,
            blitzhieb: Edge3::Off,
            berserker: Edge3::Off,
            riposte: Edge3::Off,
            tuchfuhlung: Edge3::Off,
            kampfreflexe: BoolStat(false),
            erstschlag: BoolStat(false),
            beidhandiger_kampf: BoolStat(false),
            beidhandig: BoolStat(false),
            fechten_m2w: BoolStat(false),
            ubertolpeln: BoolStat(false),
            erbarmungslos: BoolStat(false),
            machtiger_hieb: BoolStat(false),
            schnell: BoolStat(false),
            kampfkunstler: BoolStat(false),
            kuhler_kopf: Edge3::Off,
            rundumschlag: BoolStat(false),
        }
    }
}

impl Edge3Info {
    pub open spec fn spec_get(self, edges: Edges) -> Edge3 {
        match self {
            Edge3Info::Blitzhieb => edges.blitzhieb,
            Edge3Info::Berserker => edges.berserker,
            Edge3Info::Riposte => edges.riposte,
            Edge3Info::Tuchfuhlung => edges.tuchfuhlung,
            Edge3Info::Lebenskraft => edges.lebenskraft,
            Edge3Info::KuhlerKopf => edges.kuhler_kopf,
        }
    }

    pub open spec fn spec_put(self, edges: Edges, value: Edge3) -> Edges {
        match self {
            Edge3Info::Blitzhieb => Edges { blitzhieb: value, ..edges },
            Edge3Info::Berserker => Edges { berserker: value, ..edges },
            Edge3Info::Riposte => Edges { riposte: value, ..edges },
            Edge3Info::Tuchfuhlung => Edges { tuchfuhlung: value, ..edges },
            Edge3Info::Lebenskraft => Edges { lebenskraft: value, ..edges },
            Edge3Info::KuhlerKopf => Edges { kuhler_kopf: value, ..edges },
        }
    }

    pub fn get(self, edges: &Edges) -> (r: Edge3)
        ensures
            r == self.spec_get(*edges),
    {
        match self {
            Edge3Info::Blitzhieb => edges.blitzhieb,
            Edge3Info::Berserker => edges.berserker,
            Edge3Info::Riposte => edges.riposte,
            Edge3Info::Tuchfuhlung => edges.tuchfuhlung,
            Edge3Info::Lebenskraft => edges.lebenskraft,
            Edge3Info::KuhlerKopf => edges.kuhler_kopf,
        }
    }

    pub fn put(self, edges: &mut Edges, value: Edge3)
        ensures
            *final(edges) == self.spec_put(*old(edges), value),
    {
        match self {
            Edge3Info::Blitzhieb => edges.blitzhieb = value,
            Edge3Info::Berserker => edges.berserker = value,
            Edge3Info::Riposte => edges.riposte = value,
            Edge3Info::Tuchfuhlung => edges.tuchfuhlung = value,
            Edge3Info::Lebenskraft => edges.lebenskraft = value,
            Edge3Info::KuhlerKopf => edges.kuhler_kopf = value,
        }
    }
}

impl Edge2Info {
    pub open spec fn spec_get(self, edges: Edges) -> BoolStat {
        match self {
            Edge2Info::Ubertolpeln => edges.ubertolpeln,
            Edge2Info::Erbarmungslos => edges.erbarmungslos,
            Edge2Info::MachtigerHieb => edges.machtiger_hieb,
            Edge2Info::Kampfreflexe => edges.kampfreflexe,
            Edge2Info::Schnell => edges.schnell,
            Edge2Info::Erstschlag => edges.erstschlag,
            Edge2Info::BeidhandigerKampf => edges.beidhandiger_kampf,
            Edge2Info::Beidhandig => edges.beidhandig,
            Edge2Info::FechtenMit2Waffen => edges.fechten_m2w,
            Edge2Info::Kampfkunstler => edges.kampfkunstler,
            Edge2Info::Rundumschlag => edges.rundumschlag,
        }
    }

    pub open spec fn spec_put(self, edges: Edges, value: BoolStat) -> Edges {
        match self {
            Edge2Info::Ubertolpeln => Edges { ubertolpeln: value, ..edges },
            Edge2Info::Erbarmungslos => Edges { erbarmungslos: value, ..edges },
            Edge2Info::MachtigerHieb => Edges { machtiger_hieb: value, ..edges },
            Edge2Info::Kampfreflexe => Edges { kampfreflexe: value, ..edges },
            Edge2Info::Schnell => Edges { schnell: value, ..edges },
            Edge2Info::Erstschlag => Edges { erstschlag: value, ..edges },
            Edge2Info::BeidhandigerKampf => Edges { beidhandiger_kampf: value, ..edges },
            Edge2Info::Beidhandig => Edges { beidhandig: value, ..edges },
            Edge2Info::FechtenMit2Waffen => Edges { fechten_m2w: value, ..edges },
            Edge2Info::Kampfkunstler => Edges { kampfkunstler: value, ..edges },
            Edge2Info::Rundumschlag => Edges { rundumschlag: value, ..edges },
        }
    }

    pub fn get(self, edges: &Edges) -> (r: BoolStat)
        ensures
            r == self.spec_get(*edges),
    {
        match self {
            Edge2Info::Ubertolpeln => edges.ubertolpeln,
            Edge2Info::Erbarmungslos => edges.erbarmungslos,
            Edge2Info::MachtigerHieb => edges.machtiger_hieb,
            Edge2Info::Kampfreflexe => edges.kampfreflexe,
            Edge2Info::Schnell => edges.schnell,
            Edge2Info::Erstschlag => edges.erstschlag,
            Edge2Info::BeidhandigerKampf => edges.beidhandiger_kampf,
            Edge2Info::Beidhandig => edges.beidhandig,
            Edge2Info::FechtenMit2Waffen => edges.fechten_m2w,
            Edge2Info::Kampfkunstler => edges.kampfkunstler,
            Edge2Info::Rundumschlag => edges.rundumschlag,
        }
    }

    pub fn put(self, edges: &mut Edges, value: BoolStat)
        ensures
            *final(edges) == self.spec_put(*old(edges), value),
    {
        match self {
            Edge2Info::Ubertolpeln => edges.ubertolpeln = value,
            Edge2Info::Erbarmungslos => edges.erbarmungslos = value,
            Edge2Info::MachtigerHieb => edges.machtiger_hieb = value,
            Edge2Info::Kampfreflexe => edges.kampfreflexe = value,
            Edge2Info::Schnell => edges.schnell = value,
            Edge2Info::Erstschlag => edges.erstschlag = value,
            Edge2Info::BeidhandigerKampf => edges.beidhandiger_kampf = value,
            Edge2Info::Beidhandig => edges.beidhandig = value,
            Edge2Info::FechtenMit2Waffen => edges.fechten_m2w = value,
            Edge2Info::Kampfkunstler => edges.kampfkunstler = value,
            Edge2Info::Rundumschlag => edges.rundumschlag = value,
        }
    }
}

} // verus!
