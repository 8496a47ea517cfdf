//! The predefined rule sets: site and IP rule lists under one name.

use vstd::prelude::*;
use crate::utils::text::str_eq;

verus! {

broadcast use vstd::seq_lib::group_seq_properties;

/// A named rule set: its site (domain) rule lists and its IP rule lists.
#[derive(Debug, Clone)]
pub struct Rule {
    pub name: &'static str,
    pub site_rules: Vec<&'static str>,
    pub ip_rules: Vec<&'static str>,
}

/// A rule set as plain values.
pub struct RuleRow {
    pub name: Seq<char>,
    pub site_rules: Seq<Seq<char>>,
    pub ip_rules: Seq<Seq<char>>,
}

pub open spec fn rule_row(name: Seq<char>, site_rules: Seq<Seq<char>>, ip_rules: Seq<Seq<char>>) -> RuleRow {
    RuleRow { name, site_rules, ip_rules }
}

pub open spec fn str_views(v: Seq<&'static str>) -> Seq<Seq<char>> {
    v.map_values(|s: &'static str| s@)
}

impl View for Rule {
    type V = RuleRow;

    open spec fn view(&self) -> RuleRow {
        rule_row(self.name@, str_views(self.site_rules@), str_views(self.ip_rules@))
    }
}

pub open spec fn rule_rows(v: Seq<Rule>) -> Seq<RuleRow> {
    v.map_values(|r: Rule| r@)
}

/// The predefined rule sets, in order.
pub open spec fn unified_table() -> Seq<RuleRow> {
    seq![
        rule_row("Ad Block"@, seq!["category-ads-all"@], Seq::<Seq<char>>::empty()),
        rule_row("AI Services"@, seq!["category-ai-!cn"@], Seq::<Seq<char>>::empty()),
        rule_row("Bilibili"@, seq!["bilibili"@], Seq::<Seq<char>>::empty()),
        rule_row("Youtube"@, seq!["youtube"@], Seq::<Seq<char>>::empty()),
        rule_row("Google"@, seq!["google"@], seq!["google"@]),
        rule_row("Private"@, Seq::<Seq<char>>::empty(), seq!["private"@]),
        rule_row("Location:CN"@, seq!["geolocation-cn"@, "cn"@], seq!["cn"@]),
        rule_row("Telegram"@, Seq::<Seq<char>>::empty(), seq!["telegram"@]),
        rule_row("Github"@, seq!["github"@, "gitlab"@], Seq::<Seq<char>>::empty()),
        rule_row("Microsoft"@, seq!["microsoft"@], Seq::<Seq<char>>::empty()),
        rule_row("Apple"@, seq!["apple"@], Seq::<Seq<char>>::empty()),
        rule_row("Social Media"@, seq!["facebook"@, "instagram"@, "twitter"@, "tiktok"@, "linkedin"@], Seq::<Seq<char>>::empty()),
        rule_row("Streaming"@, seq!["netflix"@, "hulu"@, "disney"@, "hbo"@, "amazon"@, "bahamut"@], Seq::<Seq<char>>::empty()),
        rule_row("Gaming"@, seq!["steam"@, "epicgames"@, "ea"@, "ubisoft"@, "blizzard"@], Seq::<Seq<char>>::empty()),
        rule_row("Education"@, seq!["coursera"@, "edx"@, "udemy"@, "khanacademy"@, "category-scholar-!cn"@], Seq::<Seq<char>>::empty()),
        rule_row("Financial"@, seq!["paypal"@, "visa"@, "mastercard"@, "stripe"@, "wise"@], Seq::<Seq<char>>::empty()),
        rule_row("Cloud Services"@, seq!["aws"@, "azure"@, "digitalocean"@, "heroku"@, "dropbox"@], Seq::<Seq<char>>::empty()),
        rule_row("Non-China"@, seq!["geolocation-!cn"@], Seq::<Seq<char>>::empty()),
    ]
}

/// The rule sets whose traffic goes DIRECT rather than through the node
/// selector.
pub open spec fn direct_default_names() -> Seq<Seq<char>> {
    seq!["Private"@, "Location:CN"@]
}

fn push_rule(
    res: &mut Vec<Rule>,
    name: &'static str,
    site_rules: Vec<&'static str>,
    ip_rules: Vec<&'static str>,
)
    ensures
        rule_rows(final(res)@) == rule_rows(old(res)@).push(
            rule_row(name@, str_views(site_rules@), str_views(ip_rules@)),
        ),
{
    let r = Rule { name, site_rules, ip_rules };
    let ghost before = rule_rows(res@);
    res.push(r);
    assert(rule_rows(res@) =~= before.push(r@));
}

/// The predefined rule sets, in order.
pub fn unified_rules() -> (res: Vec<Rule>)
    ensures
        rule_rows(res@) == unified_table(),
{
    let mut res: Vec<Rule> = Vec::new();
    let site: Vec<&'static str> = vec!["category-ads-all"];
    let ip: Vec<&'static str> = Vec::new();
    assert(str_views(site@) =~= seq!["category-ads-all"@]);
    assert(str_views(ip@) =~= Seq::<Seq<char>>::empty());
    push_rule(&mut res, "Ad Block", site, ip);
    let site: Vec<&'static str> = vec!["category-ai-!cn"];
    let ip: Vec<&'static str> = Vec::new();
    assert(str_views(site@) =~= seq!["category-ai-!cn"@]);
    assert(str_views(ip@) =~= Seq::<Seq<char>>::empty());
    push_rule(&mut res, "AI Services", site, ip);
    let site: Vec<&'static str> = vec!["bilibili"];
    let ip: Vec<&'static str> = Vec::new();
    assert(str_views(site@) =~= seq!["bilibili"@]);
    assert(str_views(ip@) =~= Seq::<Seq<char>>::empty());
    push_rule(&mut res, "Bilibili", site, ip);
    let site: Vec<&'static str> = vec!["youtube"];
    let ip: Vec<&'static str> = Vec::new();
    assert(str_views(site@) =~= seq!["youtube"@]);
    assert(str_views(ip@) =~= Seq::<Seq<char>>::empty());
    push_rule(&mut res, "Youtube", site, ip);
    let site: Vec<&'static str> = vec!["google"];
    let ip: Vec<&'static str> = vec!["google"];
    assert(str_views(site@) =~= seq!["google"@]);
    assert(str_views(ip@) =~= seq!["google"@]);
    push_rule(&mut res, "Google", site, ip);
    let site: Vec<&'static str> = Vec::new();
    let ip: Vec<&'static str> = vec!["private"];
    assert(str_views(site@) =~= Seq::<Seq<char>>::empty());
    assert(str_views(ip@) =~= seq!["private"@]);
    push_rule(&mut res, "Private", site, ip);
    let site: Vec<&'static str> = vec!["geolocation-cn", "cn"];
    let ip: Vec<&'static str> = vec!["cn"];
    assert(str_views(site@) =~= seq!["geolocation-cn"@, "cn"@]);
    assert(str_views(ip@) =~= seq!["cn"@]);
    push_rule(&mut res, "Location:CN", site, ip);
    let site: Vec<&'static str> = Vec::new();
    let ip: Vec<&'static str> = vec!["telegram"];
    assert(str_views(site@) =~= Seq::<Seq<char>>::empty());
    assert(str_views(ip@) =~= seq!["telegram"@]);
    push_rule(&mut res, "Telegram", site, ip);
    let site: Vec<&'static str> = vec!["github", "gitlab"];
    let ip: Vec<&'static str> = Vec::new();
    assert(str_views(site@) =~= seq!["github"@, "gitlab"@]);
    assert(str_views(ip@) =~= Seq::<Seq<char>>::empty());
    push_rule(&mut res, "Github", site, ip);
    let site: Vec<&'static str> = vec!["microsoft"];
    let ip: Vec<&'static str> = Vec::new();
    assert(str_views(site@) =~= seq!["microsoft"@]);
    assert(str_views(ip@) =~= Seq::<Seq<char>>::empty());
    push_rule(&mut res, "Microsoft", site, ip);
    let site: Vec<&'static str> = vec!["apple"];
    let ip: Vec<&'static str> = Vec::new();
    assert(str_views(site@) =~= seq!["apple"@]);
    assert(str_views(ip@) =~= Seq::<Seq<char>>::empty());
    push_rule(&mut res, "Apple", site, ip);
    let site: Vec<&'static str> = vec!["facebook", "instagram", "twitter", "tiktok", "linkedin"];
    let ip: Vec<&'static str> = Vec::new();
    assert(str_views(site@) =~= seq!["facebook"@, "instagram"@, "twitter"@, "tiktok"@, "linkedin"@]);
    assert(str_views(ip@) =~= Seq::<Seq<char>>::empty());
    push_rule(&mut res, "Social Media", site, ip);
    let site: Vec<&'static str> = vec!["netflix", "hulu", "disney", "hbo", "amazon", "bahamut"];
    let ip: Vec<&'static str> = Vec::new();
    assert(str_views(site@) =~= seq!["netflix"@, "hulu"@, "disney"@, "hbo"@, "amazon"@, "bahamut"@]);
    assert(str_views(ip@) =~= Seq::<Seq<char>>::empty());
    push_rule(&mut res, "Streaming", site, ip);
    let site: Vec<&'static str> = vec!["steam", "epicgames", "ea", "ubisoft", "blizzard"];
    let ip: Vec<&'static str> = Vec::new();
    assert(str_views(site@) =~= seq!["steam"@, "epicgames"@, "ea"@, "ubisoft"@, "blizzard"@]);
    assert(str_views(ip@) =~= Seq::<Seq<char>>::empty());
    push_rule(&mut res, "Gaming", site, ip);
    let site: Vec<&'static str> = vec!["coursera", "edx", "udemy", "khanacademy", "category-scholar-!cn"];
    let ip: Vec<&'static str> = Vec::new();
    assert(str_views(site@) =~= seq!["coursera"@, "edx"@, "udemy"@, "khanacademy"@, "category-scholar-!cn"@]);
    assert(str_views(ip@) =~= Seq::<Seq<char>>::empty());
    push_rule(&mut res, "Education", site, ip);
    let site: Vec<&'static str> = vec!["paypal", "visa", "mastercard", "stripe", "wise"];
    let ip: Vec<&'static str> = Vec::new();
    assert(str_views(site@) =~= seq!["paypal"@, "visa"@, "mastercard"@, "stripe"@, "wise"@]);
    assert(str_views(ip@) =~= Seq::<Seq<char>>::empty());
    push_rule(&mut res, "Financial", site, ip);
    let site: Vec<&'static str> = vec!["aws", "azure", "digitalocean", "heroku", "dropbox"];
    let ip: Vec<&'static str> = Vec::new();
    assert(str_views(site@) =~= seq!["aws"@, "azure"@, "digitalocean"@, "heroku"@, "dropbox"@]);
    assert(str_views(ip@) =~= Seq::<Seq<char>>::empty());
    push_rule(&mut res, "Cloud Services", site, ip);
    let site: Vec<&'static str> = vec!["geolocation-!cn"];
    let ip: Vec<&'static str> = Vec::new();
    assert(str_views(site@) =~= seq!["geolocation-!cn"@]);
    assert(str_views(ip@) =~= Seq::<Seq<char>>::empty());
    push_rule(&mut res, "Non-China", site, ip);
    res
}

/// The names of the rule sets that default to DIRECT.
pub fn direct_default_rules() -> (res: Vec<&'static str>)
    ensures
        str_views(res@) == direct_default_names(),
{
    let res: Vec<&'static str> = vec!["Private", "Location:CN"];
    assert(str_views(res@) =~= direct_default_names());
    res
}

/// The first rule set with the given name.
pub open spec fn rule_named(rows: Seq<RuleRow>, name: Seq<char>) -> Option<RuleRow>
    decreases rows.len(),
{
    if rows.len() == 0 {
        None
    } else if rows[0].name == name {
        Some(rows[0])
    } else {
        rule_named(rows.drop_first(), name)
    }
}

/// The predefined rule set with the given name, if there is one.
pub fn get_rule_by_name(name: &str) -> (res: Option<Rule>)
    ensures
        match rule_named(unified_table(), name@) {
            Some(row) => res matches Some(r) && r@ == row,
            None => res is None,
        },
{
    let mut rules = unified_rules();
    let ghost rows = rule_rows(rules@);
    let mut i: usize = 0;
    assert(rows.skip(0) =~= rows);
    while i < rules.len()
        invariant
            i <= rules.len(),
            rows == rule_rows(rules@),
            rows == unified_table(),
            rule_named(rows, name@) == rule_named(rows.skip(i as int), name@),
        decreases rules.len() - i,
    {
        assert(rows.skip(i as int)[0] == rules@[i as int]@);
        if str_eq(rules[i].name, name) {
            let r = rules.remove(i);
            return Some(r);
        }
        assert(rows.skip(i as int).drop_first() =~= rows.skip(i + 1));
        i = i + 1;
    }
    None
}

} // verus!
