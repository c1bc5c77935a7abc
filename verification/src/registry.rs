//! The agent registry: a static, in-memory catalog of the known agents,
//! constructed once per call, never mutated, read only at the listing
//! endpoint.  Forwarding never consults it.

use vstd::prelude::*;

verus! {

/// One registry entry, immutable for the process lifetime.
pub struct Agent {
    /// Short lowercase identifier, unique within the registry, used as a
    /// URL path segment.
    pub id: String,
    /// Display name, uppercase by convention.
    pub name: String,
    /// One-line description of function.
    pub role: String,
    /// `active` or `coming_soon`; informational only.
    pub status: String,
    pub description: String,
    pub capabilities: Vec<String>,
}

/// The catalog the registry declares, entry by entry and in declaration
/// order: identifiers, display names, roles and lifecycle statuses.
pub open spec fn is_registry(s: Seq<Agent>) -> bool {
    &&& s.len() == 6
    &&& s[0].id@ == "marie"@ && s[0].name@ == "MARIE"@ && s[0].role@ == "Support Chatbot"@
        && s[0].status@ == "active"@ && s[0].capabilities@.len() == 4
    &&& s[1].id@ == "john"@ && s[1].name@ == "JOHN"@ && s[1].role@ == "Social Media Manager"@
        && s[1].status@ == "coming_soon"@ && s[1].capabilities@.len() == 4
    &&& s[2].id@ == "hugo"@ && s[2].name@ == "HUGO"@ && s[2].role@ == "Content Generator"@
        && s[2].status@ == "coming_soon"@ && s[2].capabilities@.len() == 4
    &&& s[3].id@ == "lucas"@ && s[3].name@ == "LUCAS"@ && s[3].role@ == "Quote Generator"@
        && s[3].status@ == "coming_soon"@ && s[3].capabilities@.len() == 4
    &&& s[4].id@ == "emma"@ && s[4].name@ == "EMMA"@ && s[4].role@ == "Email Responder"@
        && s[4].status@ == "coming_soon"@ && s[4].capabilities@.len() == 4
    &&& s[5].id@ == "noah"@ && s[5].name@ == "NOAH"@ && s[5].role@ == "Analytics & Insights"@
        && s[5].status@ == "coming_soon"@ && s[5].capabilities@.len() == 4
}

/// The entries' identifiers are pairwise distinct.
pub open spec fn ids_unique(s: Seq<Agent>) -> bool {
    forall|i: int, j: int|
        0 <= i < s.len() && 0 <= j < s.len() && i != j ==> s[i].id@ != s[j].id@
}

/// Lists the known agents: a fixed catalog of six entries in declaration
/// order, with pairwise unique identifiers.
pub fn list_agents() -> (r: Vec<Agent>)
    ensures
        is_registry(r@),
        ids_unique(r@),
{
    let mut agents: Vec<Agent> = Vec::new();
    agents.push(
        Agent {
            id: "marie".to_owned(),
            name: "MARIE".to_owned(),
            role: "Support Chatbot".to_owned(),
            status: "active".to_owned(),
            description: "Agent de support client 24/7, répond aux questions et escalade si nécessaire".to_owned(),
            capabilities: make_capabilities(
                "Réponses contextuelles",
                "Multi-langue (FR/EN)",
                "Mémoire de conversation",
                "Escalade vers humain",
            ),
        },
    );
    agents.push(
        Agent {
            id: "john".to_owned(),
            name: "JOHN".to_owned(),
            role: "Social Media Manager".to_owned(),
            status: "coming_soon".to_owned(),
            description: "Gère les réseaux sociaux, crée et publie du contenu".to_owned(),
            capabilities: make_capabilities(
                "Génération de posts",
                "Création de visuels",
                "Planification automatique",
                "LinkedIn, Instagram, TikTok",
            ),
        },
    );
    agents.push(
        Agent {
            id: "hugo".to_owned(),
            name: "HUGO".to_owned(),
            role: "Content Generator".to_owned(),
            status: "coming_soon".to_owned(),
            description: "Génère du contenu marketing et SEO".to_owned(),
            capabilities: make_capabilities(
                "Articles de blog SEO",
                "Descriptions produits",
                "Emails marketing",
                "Traduction multi-langues",
            ),
        },
    );
    agents.push(
        Agent {
            id: "lucas".to_owned(),
            name: "LUCAS".to_owned(),
            role: "Quote Generator".to_owned(),
            status: "coming_soon".to_owned(),
            description: "Crée des devis personnalisés automatiquement".to_owned(),
            capabilities: make_capabilities(
                "Analyse des besoins",
                "Calcul de prix intelligent",
                "Export PDF",
                "Envoi automatique",
            ),
        },
    );
    agents.push(
        Agent {
            id: "emma".to_owned(),
            name: "EMMA".to_owned(),
            role: "Email Responder".to_owned(),
            status: "coming_soon".to_owned(),
            description: "Gère et répond aux emails automatiquement".to_owned(),
            capabilities: make_capabilities(
                "Connexion Gmail/Outlook",
                "Catégorisation auto",
                "Réponses intelligentes",
                "Détection d'urgence",
            ),
        },
    );
    agents.push(
        Agent {
            id: "noah".to_owned(),
            name: "NOAH".to_owned(),
            role: "Analytics & Insights".to_owned(),
            status: "coming_soon".to_owned(),
            description: "Analyse les données et génère des insights".to_owned(),
            capabilities: make_capabilities(
                "Tableaux de bord",
                "Rapports automatiques",
                "Prédictions",
                "Alertes intelligentes",
            ),
        },
    );
    proof {
        reveal_strlit("marie");
        reveal_strlit("john");
        reveal_strlit("hugo");
        reveal_strlit("lucas");
        reveal_strlit("emma");
        reveal_strlit("noah");
        let s = agents@;
        // The six identifiers differ pairwise already in their first
        // character; surfacing those characters settles uniqueness.
        assert("marie"@[0] == 'm' && "john"@[0] == 'j' && "hugo"@[0] == 'h' && "lucas"@[0] == 'l'
            && "emma"@[0] == 'e' && "noah"@[0] == 'n');
        assert(s[0].id@ != s[1].id@ && s[0].id@ != s[2].id@ && s[0].id@ != s[3].id@ && s[0].id@
            != s[4].id@ && s[0].id@ != s[5].id@);
        assert(s[1].id@ != s[2].id@ && s[1].id@ != s[3].id@ && s[1].id@ != s[4].id@ && s[1].id@
            != s[5].id@);
        assert(s[2].id@ != s[3].id@ && s[2].id@ != s[4].id@ && s[2].id@ != s[5].id@);
        assert(s[3].id@ != s[4].id@ && s[3].id@ != s[5].id@);
        assert(s[4].id@ != s[5].id@);
        assert forall|i: int, j: int|
            0 <= i < s.len() && 0 <= j < s.len() && i != j implies s[i].id@ != s[j].id@ by {};
    }
    agents
}

/// Gathers one entry's four capability strings.
fn make_capabilities(a: &str, b: &str, c: &str, d: &str) -> (r: Vec<String>)
    ensures
        r@.len() == 4,
        r@[0]@ == a@ && r@[1]@ == b@ && r@[2]@ == c@ && r@[3]@ == d@,
{
    let mut v: Vec<String> = Vec::new();
    v.push(a.to_owned());
    v.push(b.to_owned());
    v.push(c.to_owned());
    v.push(d.to_owned());
    v
}

/// The registry is fixed for the process lifetime: any two listings
/// agree, entry by entry, on identifier, name, role and status, so the
/// declaration order is preserved across repeated calls.
pub proof fn lemma_registry_stable(a: Seq<Agent>, b: Seq<Agent>)
    requires
        is_registry(a),
        is_registry(b),
    ensures
        a.len() == b.len(),
        forall|i: int|
            0 <= i < a.len() ==> a[i].id@ == b[i].id@ && a[i].name@ == b[i].name@ && a[i].role@
                == b[i].role@ && a[i].status@ == b[i].status@,
{
}

/// The live-status placeholder the status endpoint answers with; not a
/// real probe.
pub struct AgentStatus {
    pub agent_id: String,
    pub status: String,
    pub uptime: String,
    pub requests_handled: u64,
    pub average_response_time_ms: u64,
}

/// Answers a status query for any agent id: a static placeholder with
/// the id echoed verbatim.
pub fn agent_status(agent_id: String) -> (r: AgentStatus)
    ensures
        r.agent_id@ == agent_id@,
        r.status@ == "active"@,
        r.uptime@ == "0d 0h 0m"@,
        r.requests_handled == 0,
        r.average_response_time_ms == 0,
{
    AgentStatus {
        agent_id,
        status: "active".to_owned(),
        uptime: "0d 0h 0m".to_owned(),
        requests_handled: 0,
        average_response_time_ms: 0,
    }
}

} // verus!
