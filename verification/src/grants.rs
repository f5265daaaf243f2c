//! The funding opportunities that the assistant knows about.

use vstd::prelude::*;

verus! {

/// A funding opportunity: who offers it, its title, where to apply, how
/// much it gives and until when.
#[derive(Clone, Debug)]
pub struct Subvention {
    pub source: String,
    pub titre: String,
    pub url: String,
    pub montant: String,
    pub deadline: String,
}

/// The characters of each field of a `Subvention`.
pub struct SubventionView {
    pub source: Seq<char>,
    pub titre: Seq<char>,
    pub url: Seq<char>,
    pub montant: Seq<char>,
    pub deadline: Seq<char>,
}

impl View for Subvention {
    type V = SubventionView;

    open spec fn view(&self) -> SubventionView {
        SubventionView {
            source: self.source@,
            titre: self.titre@,
            url: self.url@,
            montant: self.montant@,
            deadline: self.deadline@,
        }
    }
}

/// The known funding opportunities, in the order in which they are listed.
pub open spec fn grant_catalog() -> Seq<SubventionView> {
    seq![
        SubventionView {
            source: "Gitcoin"@,
            titre: "Open Source Software Round"@,
            url: "https://gitcoin.co/grants"@,
            montant: "Variable + matching"@,
            deadline: "2026-06-30"@,
        },
        SubventionView {
            source: "Drips Network"@,
            titre: "Drips Ecosystem Funding"@,
            url: "https://drips.network"@,
            montant: "Streaming USDC"@,
            deadline: "continu"@,
        },
        SubventionView {
            source: "IssueHunt"@,
            titre: "Bounty Board"@,
            url: "https://issuehunt.io"@,
            montant: "Par tâche"@,
            deadline: "continu"@,
        },
        SubventionView {
            source: "NGI0 Commons Fund"@,
            titre: "NGI0 Commons Fund"@,
            url: "https://nlnet.nl/commonsfund"@,
            montant: "5k-50k €"@,
            deadline: "2026-06-01"@,
        },
        SubventionView {
            source: "NSF PESOSE"@,
            titre: "NSF PESOSE"@,
            url: "https://nsf.gov"@,
            montant: "Jusqu'à 300k $"@,
            deadline: "2026-08-15"@,
        },
        SubventionView {
            source: "Stellar Drips Wave"@,
            titre: "Stellar Drips Wave"@,
            url: "https://stellar.org"@,
            montant: "Streaming XLM/USDC"@,
            deadline: "2026-07-01"@,
        },
    ]
}

fn grant(source: &str, titre: &str, url: &str, montant: &str, deadline: &str) -> (r: Subvention)
    ensures
        r@ == (SubventionView {
            source: source@,
            titre: titre@,
            url: url@,
            montant: montant@,
            deadline: deadline@,
        }),
{
    Subvention {
        source: String::from_str(source),
        titre: String::from_str(titre),
        url: String::from_str(url),
        montant: String::from_str(montant),
        deadline: String::from_str(deadline),
    }
}

/// Lists the known funding opportunities: always the same catalogue, in
/// the same order.
pub fn scanner_subventions() -> (r: Vec<Subvention>)
    ensures
        r@.map_values(|s: Subvention| s@) == grant_catalog(),
{
    let mut r: Vec<Subvention> = Vec::new();
    r.push(grant("Gitcoin", "Open Source Software Round", "https://gitcoin.co/grants", "Variable + matching", "2026-06-30"));
    r.push(grant("Drips Network", "Drips Ecosystem Funding", "https://drips.network", "Streaming USDC", "continu"));
    r.push(grant("IssueHunt", "Bounty Board", "https://issuehunt.io", "Par tâche", "continu"));
    r.push(grant("NGI0 Commons Fund", "NGI0 Commons Fund", "https://nlnet.nl/commonsfund", "5k-50k €", "2026-06-01"));
    r.push(grant("NSF PESOSE", "NSF PESOSE", "https://nsf.gov", "Jusqu'à 300k $", "2026-08-15"));
    r.push(grant("Stellar Drips Wave", "Stellar Drips Wave", "https://stellar.org", "Streaming XLM/USDC", "2026-07-01"));
    assert(r@.map_values(|s: Subvention| s@) =~= grant_catalog());
    r
}

/// The catalogue holds six opportunities, each with its own source, title,
/// address, amount and deadline: Gitcoin's Open Source Software Round at
/// https://gitcoin.co/grants, the Drips Network at https://drips.network,
/// IssueHunt at https://issuehunt.io, the NGI0 Commons Fund at
/// https://nlnet.nl/commonsfund, NSF PESOSE at https://nsf.gov and the
/// Stellar Drips Wave at https://stellar.org, in that order.
pub proof fn grant_catalog_entries()
    ensures
        grant_catalog().len() == 6,
        grant_catalog()[0].source == "Gitcoin"@,
        grant_catalog()[0].titre == "Open Source Software Round"@,
        grant_catalog()[0].url == "https://gitcoin.co/grants"@,
        grant_catalog()[0].montant == "Variable + matching"@,
        grant_catalog()[0].deadline == "2026-06-30"@,
        grant_catalog()[1].source == "Drips Network"@,
        grant_catalog()[1].titre == "Drips Ecosystem Funding"@,
        grant_catalog()[1].url == "https://drips.network"@,
        grant_catalog()[1].montant == "Streaming USDC"@,
        grant_catalog()[1].deadline == "continu"@,
        grant_catalog()[2].source == "IssueHunt"@,
        grant_catalog()[2].titre == "Bounty Board"@,
        grant_catalog()[2].url == "https://issuehunt.io"@,
        grant_catalog()[2].montant == "Par tâche"@,
        grant_catalog()[2].deadline == "continu"@,
        grant_catalog()[3].source == "NGI0 Commons Fund"@,
        grant_catalog()[3].titre == "NGI0 Commons Fund"@,
        grant_catalog()[3].url == "https://nlnet.nl/commonsfund"@,
        grant_catalog()[3].montant == "5k-50k €"@,
        grant_catalog()[3].deadline == "2026-06-01"@,
        grant_catalog()[4].source == "NSF PESOSE"@,
        grant_catalog()[4].titre == "NSF PESOSE"@,
        grant_catalog()[4].url == "https://nsf.gov"@,
        grant_catalog()[4].montant == "Jusqu'à 300k $"@,
        grant_catalog()[4].deadline == "2026-08-15"@,
        grant_catalog()[5].source == "Stellar Drips Wave"@,
        grant_catalog()[5].titre == "Stellar Drips Wave"@,
        grant_catalog()[5].url == "https://stellar.org"@,
        grant_catalog()[5].montant == "Streaming XLM/USDC"@,
        grant_catalog()[5].deadline == "2026-07-01"@,
{
}

} // verus!
