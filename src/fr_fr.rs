//! Generators of French data.
use crate::grammar::{pool_values, rule_views, ConfigError, Grammar, Node, TemplateRule};
use crate::text::{char_values, holes, lines_of, singles, views, Transform};
use crate::util::{digit_chars, digits, letter_chars, letters};
use vstd::prelude::*;

pub mod names;
pub mod addresses;
pub mod company;
pub mod internet;
pub mod phones;

verus! {

/// The word lists of the locale, each a text with one value per line.
pub struct WordLists {
    /// First names.
    pub first_names: String,
    /// Last names.
    pub last_names: String,
    /// Honorifics put before a name.
    pub name_prefixes: String,
    /// City names.
    pub city_names: String,
    /// Kinds of street, put before its name.
    pub street_prefixes: String,
    /// Names of streets.
    pub street_suffixes: String,
    /// Regions.
    pub divisions: String,
    /// Legal forms of companies.
    pub company_suffixes: String,
    /// Top-level domains.
    pub domain_tlds: String,
}

proof fn lemma_full_name_first()
    ensures
        holes("{} {}"@) == 2,
{
    reveal_strlit("{} {}");
    reveal_with_fuel(holes, 4);
}

proof fn lemma_full_name_second()
    ensures
        holes("{} {} {}"@) == 3,
{
    reveal_strlit("{} {} {}");
    reveal_with_fuel(holes, 6);
}

proof fn lemma_building_number_first()
    ensures
        holes("{}"@) == 1,
{
    reveal_strlit("{}");
    reveal_with_fuel(holes, 2);
}

proof fn lemma_building_number_second()
    ensures
        holes("{}{}"@) == 2,
{
    reveal_strlit("{}{}");
    reveal_with_fuel(holes, 3);
}

proof fn lemma_building_number_third()
    ensures
        holes("{}{}{}"@) == 3,
{
    reveal_strlit("{}{}{}");
    reveal_with_fuel(holes, 4);
}

proof fn lemma_secondary_address_first()
    ensures
        holes("Apt. {}{}{}"@) == 3,
{
    reveal_strlit("Apt. {}{}{}");
    reveal_with_fuel(holes, 9);
}

proof fn lemma_secondary_address_second()
    ensures
        holes("{} étage"@) == 1,
{
    reveal_strlit("{} étage");
    reveal_with_fuel(holes, 8);
}

proof fn lemma_postal_code_first()
    ensures
        holes("{}{}{}{}{}"@) == 5,
{
    reveal_strlit("{}{}{}{}{}");
    reveal_with_fuel(holes, 6);
}

proof fn lemma_address_first()
    ensures
        holes("{}\n{}\n{} {}\nFRANCE\n"@) == 4,
{
    reveal_strlit("{}\n{}\n{} {}\nFRANCE\n");
    reveal_with_fuel(holes, 16);
}

proof fn lemma_address_second()
    ensures
        holes("{}\n{}\n{}\n{} {}\nFRANCE\n"@) == 5,
{
    reveal_strlit("{}\n{}\n{}\n{} {}\nFRANCE\n");
    reveal_with_fuel(holes, 18);
}

proof fn lemma_domain_first()
    ensures
        holes("{}.{}"@) == 2,
{
    reveal_strlit("{}.{}");
    reveal_with_fuel(holes, 4);
}

proof fn lemma_username_first()
    ensures
        holes("{}{}{}{}"@) == 4,
{
    reveal_strlit("{}{}{}{}");
    reveal_with_fuel(holes, 5);
}

proof fn lemma_email_first()
    ensures
        holes("{}@{}"@) == 2,
{
    reveal_strlit("{}@{}");
    reveal_with_fuel(holes, 4);
}

proof fn lemma_phone_number_first()
    ensures
        holes("0{} {}{} {}{} {}{} {}{}"@) == 9,
{
    reveal_strlit("0{} {}{} {}{} {}{} {}{}");
    reveal_with_fuel(holes, 15);
}

/// Generators of French data: one grammar and the position of each generator in it.
pub struct Catalog {
    pub grammar: Grammar,
    pub first_name: usize,
    pub last_name: usize,
    pub name_prefix: usize,
    pub city_name: usize,
    pub street_prefix: usize,
    pub street_suffix: usize,
    pub division: usize,
    pub company_suffix: usize,
    pub domain_tld: usize,
    pub ascii_digit: usize,
    pub ascii_lowercase: usize,
    pub ascii_last_name: usize,
    pub ascii_first_name: usize,
    pub full_name: usize,
    pub street_name: usize,
    pub building_number: usize,
    pub street_address: usize,
    pub secondary_address: usize,
    pub postal_code: usize,
    pub address: usize,
    pub company_name: usize,
    pub domain_word: usize,
    pub domain: usize,
    pub username: usize,
    pub email: usize,
    pub phone_number: usize,
}

impl Catalog {
    /// Whether the grammar is sound and holds every named generator.
    pub open spec fn wf(&self) -> bool {
        &&& self.grammar.wf()
        &&& self.first_name < self.grammar.nodes@.len()
        &&& self.last_name < self.grammar.nodes@.len()
        &&& self.name_prefix < self.grammar.nodes@.len()
        &&& self.city_name < self.grammar.nodes@.len()
        &&& self.street_prefix < self.grammar.nodes@.len()
        &&& self.street_suffix < self.grammar.nodes@.len()
        &&& self.division < self.grammar.nodes@.len()
        &&& self.company_suffix < self.grammar.nodes@.len()
        &&& self.domain_tld < self.grammar.nodes@.len()
        &&& self.ascii_digit < self.grammar.nodes@.len()
        &&& self.ascii_lowercase < self.grammar.nodes@.len()
        &&& self.ascii_last_name < self.grammar.nodes@.len()
        &&& self.ascii_first_name < self.grammar.nodes@.len()
        &&& self.full_name < self.grammar.nodes@.len()
        &&& self.street_name < self.grammar.nodes@.len()
        &&& self.building_number < self.grammar.nodes@.len()
        &&& self.street_address < self.grammar.nodes@.len()
        &&& self.secondary_address < self.grammar.nodes@.len()
        &&& self.postal_code < self.grammar.nodes@.len()
        &&& self.address < self.grammar.nodes@.len()
        &&& self.company_name < self.grammar.nodes@.len()
        &&& self.domain_word < self.grammar.nodes@.len()
        &&& self.domain < self.grammar.nodes@.len()
        &&& self.username < self.grammar.nodes@.len()
        &&& self.email < self.grammar.nodes@.len()
        &&& self.phone_number < self.grammar.nodes@.len()
    }

    /// Builds the generators over the word lists. Fails only when a list has
    /// no lines.
    #[verifier::rlimit(60)]
    pub fn new(lists: &WordLists) -> (r: Result<Catalog, ConfigError>)
        ensures
            r is Err <==> (lines_of(lists.first_names@).len() == 0
                || lines_of(lists.last_names@).len() == 0
                || lines_of(lists.name_prefixes@).len() == 0
                || lines_of(lists.city_names@).len() == 0
                || lines_of(lists.street_prefixes@).len() == 0
                || lines_of(lists.street_suffixes@).len() == 0
                || lines_of(lists.divisions@).len() == 0
                || lines_of(lists.company_suffixes@).len() == 0
                || lines_of(lists.domain_tlds@).len() == 0),
            r is Err ==> r == Err::<Catalog, ConfigError>(ConfigError::EmptyPool),
            r matches Ok(c) ==> c.wf()
                && pool_values(c.grammar.nodes@[c.first_name as int]) == lines_of(lists.first_names@)
                && pool_values(c.grammar.nodes@[c.last_name as int]) == lines_of(lists.last_names@)
                && pool_values(c.grammar.nodes@[c.name_prefix as int]) == lines_of(lists.name_prefixes@)
                && pool_values(c.grammar.nodes@[c.city_name as int]) == lines_of(lists.city_names@)
                && pool_values(c.grammar.nodes@[c.street_prefix as int]) == lines_of(lists.street_prefixes@)
                && pool_values(c.grammar.nodes@[c.street_suffix as int]) == lines_of(lists.street_suffixes@)
                && pool_values(c.grammar.nodes@[c.division as int]) == lines_of(lists.divisions@)
                && pool_values(c.grammar.nodes@[c.company_suffix as int]) == lines_of(lists.company_suffixes@)
                && pool_values(c.grammar.nodes@[c.domain_tld as int]) == lines_of(lists.domain_tlds@)
                && pool_values(c.grammar.nodes@[c.ascii_digit as int]) == singles(digit_chars())
                && pool_values(c.grammar.nodes@[c.ascii_lowercase as int]) == singles(letter_chars())
                && c.grammar.nodes@[c.ascii_last_name as int] == Node::Transform(Transform::AsciiLowercase, c.last_name)
                && c.grammar.nodes@[c.ascii_first_name as int] == Node::Transform(Transform::AsciiLowercase, c.first_name)
                && rule_views(c.grammar.nodes@[c.full_name as int]) == seq![
                    ("{} {}"@, seq![c.first_name, c.last_name]),
                    ("{} {} {}"@, seq![c.name_prefix, c.first_name, c.last_name]),
                ]
                && rule_views(c.grammar.nodes@[c.street_name as int]) == seq![
                    ("{} {}"@, seq![c.street_prefix, c.street_suffix]),
                ]
                && rule_views(c.grammar.nodes@[c.building_number as int]) == seq![
                    ("{}"@, seq![c.ascii_digit]),
                    ("{}{}"@, seq![c.ascii_digit, c.ascii_digit]),
                    ("{}{}{}"@, seq![c.ascii_digit, c.ascii_digit, c.ascii_digit]),
                ]
                && rule_views(c.grammar.nodes@[c.street_address as int]) == seq![
                    ("{} {}"@, seq![c.building_number, c.street_name]),
                ]
                && rule_views(c.grammar.nodes@[c.secondary_address as int]) == seq![
                    ("Apt. {}{}{}"@, seq![c.ascii_digit, c.ascii_digit, c.ascii_digit]),
                    ("{} étage"@, seq![c.ascii_digit]),
                ]
                && rule_views(c.grammar.nodes@[c.postal_code as int]) == seq![
                    ("{}{}{}{}{}"@, seq![c.ascii_digit, c.ascii_digit, c.ascii_digit, c.ascii_digit, c.ascii_digit]),
                ]
                && rule_views(c.grammar.nodes@[c.address as int]) == seq![
                    ("{}\n{}\n{} {}\nFRANCE\n"@, seq![c.full_name, c.street_address, c.postal_code, c.city_name]),
                    ("{}\n{}\n{}\n{} {}\nFRANCE\n"@, seq![c.full_name, c.secondary_address, c.street_address, c.postal_code, c.city_name]),
                ]
                && rule_views(c.grammar.nodes@[c.company_name as int]) == seq![
                    ("{} {}"@, seq![c.first_name, c.company_suffix]),
                ]
                && rule_views(c.grammar.nodes@[c.domain_word as int]) == seq![
                    ("{}"@, seq![c.ascii_last_name]),
                ]
                && rule_views(c.grammar.nodes@[c.domain as int]) == seq![
                    ("{}.{}"@, seq![c.domain_word, c.domain_tld]),
                ]
                && rule_views(c.grammar.nodes@[c.username as int]) == seq![
                    ("{}{}"@, seq![c.ascii_lowercase, c.ascii_last_name]),
                    ("{}{}{}"@, seq![c.ascii_lowercase, c.ascii_last_name, c.ascii_digit]),
                    ("{}{}{}{}"@, seq![c.ascii_lowercase, c.ascii_last_name, c.ascii_digit, c.ascii_digit]),
                    ("{}{}"@, seq![c.ascii_first_name, c.ascii_last_name]),
                ]
                && rule_views(c.grammar.nodes@[c.email as int]) == seq![
                    ("{}@{}"@, seq![c.username, c.domain]),
                ]
                && rule_views(c.grammar.nodes@[c.phone_number as int]) == seq![
                    ("0{} {}{} {}{} {}{} {}{}"@, seq![c.ascii_digit, c.ascii_digit, c.ascii_digit, c.ascii_digit, c.ascii_digit, c.ascii_digit, c.ascii_digit, c.ascii_digit, c.ascii_digit]),
                ],
    {
        proof {
            lemma_full_name_first();
            lemma_full_name_second();
            lemma_building_number_first();
            lemma_building_number_second();
            lemma_building_number_third();
            lemma_secondary_address_first();
            lemma_secondary_address_second();
            lemma_postal_code_first();
            lemma_address_first();
            lemma_address_second();
            lemma_domain_first();
            lemma_username_first();
            lemma_email_first();
            lemma_phone_number_first();
        }
        let mut g = Grammar::new();
        let first_name = match g.add_pool_from_lines(lists.first_names.as_str()) {
            Ok(id) => id,
            Err(e) => {
                return Err(e);
            },
        };
        let last_name = match g.add_pool_from_lines(lists.last_names.as_str()) {
            Ok(id) => id,
            Err(e) => {
                return Err(e);
            },
        };
        let name_prefix = match g.add_pool_from_lines(lists.name_prefixes.as_str()) {
            Ok(id) => id,
            Err(e) => {
                return Err(e);
            },
        };
        let city_name = match g.add_pool_from_lines(lists.city_names.as_str()) {
            Ok(id) => id,
            Err(e) => {
                return Err(e);
            },
        };
        let street_prefix = match g.add_pool_from_lines(lists.street_prefixes.as_str()) {
            Ok(id) => id,
            Err(e) => {
                return Err(e);
            },
        };
        let street_suffix = match g.add_pool_from_lines(lists.street_suffixes.as_str()) {
            Ok(id) => id,
            Err(e) => {
                return Err(e);
            },
        };
        let division = match g.add_pool_from_lines(lists.divisions.as_str()) {
            Ok(id) => id,
            Err(e) => {
                return Err(e);
            },
        };
        let company_suffix = match g.add_pool_from_lines(lists.company_suffixes.as_str()) {
            Ok(id) => id,
            Err(e) => {
                return Err(e);
            },
        };
        let domain_tld = match g.add_pool_from_lines(lists.domain_tlds.as_str()) {
            Ok(id) => id,
            Err(e) => {
                return Err(e);
            },
        };
        let ascii_digit_values = char_values(digits());
        assert(ascii_digit_values@.len() == singles(digit_chars()).len() && singles(digit_chars()).len() > 0);
        let ascii_digit = match g.add_pool(ascii_digit_values) {
            Ok(id) => id,
            Err(e) => {
                return Err(e);
            },
        };
        let ascii_lowercase_values = char_values(letters());
        assert(ascii_lowercase_values@.len() == singles(letter_chars()).len() && singles(letter_chars()).len() > 0);
        let ascii_lowercase = match g.add_pool(ascii_lowercase_values) {
            Ok(id) => id,
            Err(e) => {
                return Err(e);
            },
        };
        let ascii_last_name = match g.add_transform(Transform::AsciiLowercase, last_name) {
            Ok(id) => id,
            Err(e) => {
                return Err(e);
            },
        };
        let ghost ascii_last_name_node = g.nodes@[ascii_last_name as int];
        let ascii_first_name = match g.add_transform(Transform::AsciiLowercase, first_name) {
            Ok(id) => id,
            Err(e) => {
                return Err(e);
            },
        };
        let ghost ascii_first_name_node = g.nodes@[ascii_first_name as int];
        let ghost pools = g.nodes@;
        let full_name_rules = vec![
            TemplateRule::new("{} {}", vec![first_name, last_name]),
            TemplateRule::new("{} {} {}", vec![name_prefix, first_name, last_name]),
        ];
        assert(full_name_rules@[0].parts@ =~= seq![first_name, last_name]);
        assert(full_name_rules@[1].parts@ =~= seq![name_prefix, first_name, last_name]);
        assert(rule_views(Node::Template(full_name_rules)) =~= seq![
            ("{} {}"@, seq![first_name, last_name]),
            ("{} {} {}"@, seq![name_prefix, first_name, last_name]),
        ]);
        let full_name = g.add_sound_template(full_name_rules);
        let ghost full_name_node = g.nodes@[full_name as int];
        let street_name_rules = vec![
            TemplateRule::new("{} {}", vec![street_prefix, street_suffix]),
        ];
        assert(street_name_rules@[0].parts@ =~= seq![street_prefix, street_suffix]);
        assert(rule_views(Node::Template(street_name_rules)) =~= seq![
            ("{} {}"@, seq![street_prefix, street_suffix]),
        ]);
        let street_name = g.add_sound_template(street_name_rules);
        let ghost street_name_node = g.nodes@[street_name as int];
        let building_number_rules = vec![
            TemplateRule::new("{}", vec![ascii_digit]),
            TemplateRule::new("{}{}", vec![ascii_digit, ascii_digit]),
            TemplateRule::new("{}{}{}", vec![ascii_digit, ascii_digit, ascii_digit]),
        ];
        assert(building_number_rules@[0].parts@ =~= seq![ascii_digit]);
        assert(building_number_rules@[1].parts@ =~= seq![ascii_digit, ascii_digit]);
        assert(building_number_rules@[2].parts@ =~= seq![ascii_digit, ascii_digit, ascii_digit]);
        assert(rule_views(Node::Template(building_number_rules)) =~= seq![
            ("{}"@, seq![ascii_digit]),
            ("{}{}"@, seq![ascii_digit, ascii_digit]),
            ("{}{}{}"@, seq![ascii_digit, ascii_digit, ascii_digit]),
        ]);
        let building_number = g.add_sound_template(building_number_rules);
        let ghost building_number_node = g.nodes@[building_number as int];
        let street_address_rules = vec![
            TemplateRule::new("{} {}", vec![building_number, street_name]),
        ];
        assert(street_address_rules@[0].parts@ =~= seq![building_number, street_name]);
        assert(rule_views(Node::Template(street_address_rules)) =~= seq![
            ("{} {}"@, seq![building_number, street_name]),
        ]);
        let street_address = g.add_sound_template(street_address_rules);
        let ghost street_address_node = g.nodes@[street_address as int];
        let secondary_address_rules = vec![
            TemplateRule::new("Apt. {}{}{}", vec![ascii_digit, ascii_digit, ascii_digit]),
            TemplateRule::new("{} étage", vec![ascii_digit]),
        ];
        assert(secondary_address_rules@[0].parts@ =~= seq![ascii_digit, ascii_digit, ascii_digit]);
        assert(secondary_address_rules@[1].parts@ =~= seq![ascii_digit]);
        assert(rule_views(Node::Template(secondary_address_rules)) =~= seq![
            ("Apt. {}{}{}"@, seq![ascii_digit, ascii_digit, ascii_digit]),
            ("{} étage"@, seq![ascii_digit]),
        ]);
        let secondary_address = g.add_sound_template(secondary_address_rules);
        let ghost secondary_address_node = g.nodes@[secondary_address as int];
        let postal_code_rules = vec![
            TemplateRule::new("{}{}{}{}{}", vec![ascii_digit, ascii_digit, ascii_digit, ascii_digit, ascii_digit]),
        ];
        assert(postal_code_rules@[0].parts@ =~= seq![ascii_digit, ascii_digit, ascii_digit, ascii_digit, ascii_digit]);
        assert(rule_views(Node::Template(postal_code_rules)) =~= seq![
            ("{}{}{}{}{}"@, seq![ascii_digit, ascii_digit, ascii_digit, ascii_digit, ascii_digit]),
        ]);
        let postal_code = g.add_sound_template(postal_code_rules);
        let ghost postal_code_node = g.nodes@[postal_code as int];
        let address_rules = vec![
            TemplateRule::new("{}\n{}\n{} {}\nFRANCE\n", vec![full_name, street_address, postal_code, city_name]),
            TemplateRule::new("{}\n{}\n{}\n{} {}\nFRANCE\n", vec![full_name, secondary_address, street_address, postal_code, city_name]),
        ];
        assert(address_rules@[0].parts@ =~= seq![full_name, street_address, postal_code, city_name]);
        assert(address_rules@[1].parts@ =~= seq![full_name, secondary_address, street_address, postal_code, city_name]);
        assert(rule_views(Node::Template(address_rules)) =~= seq![
            ("{}\n{}\n{} {}\nFRANCE\n"@, seq![full_name, street_address, postal_code, city_name]),
            ("{}\n{}\n{}\n{} {}\nFRANCE\n"@, seq![full_name, secondary_address, street_address, postal_code, city_name]),
        ]);
        let address = g.add_sound_template(address_rules);
        let ghost address_node = g.nodes@[address as int];
        let company_name_rules = vec![
            TemplateRule::new("{} {}", vec![first_name, company_suffix]),
        ];
        assert(company_name_rules@[0].parts@ =~= seq![first_name, company_suffix]);
        assert(rule_views(Node::Template(company_name_rules)) =~= seq![
            ("{} {}"@, seq![first_name, company_suffix]),
        ]);
        let company_name = g.add_sound_template(company_name_rules);
        let ghost company_name_node = g.nodes@[company_name as int];
        let domain_word_rules = vec![
            TemplateRule::new("{}", vec![ascii_last_name]),
        ];
        assert(domain_word_rules@[0].parts@ =~= seq![ascii_last_name]);
        assert(rule_views(Node::Template(domain_word_rules)) =~= seq![
            ("{}"@, seq![ascii_last_name]),
        ]);
        let domain_word = g.add_sound_template(domain_word_rules);
        let ghost domain_word_node = g.nodes@[domain_word as int];
        let domain_rules = vec![
            TemplateRule::new("{}.{}", vec![domain_word, domain_tld]),
        ];
        assert(domain_rules@[0].parts@ =~= seq![domain_word, domain_tld]);
        assert(rule_views(Node::Template(domain_rules)) =~= seq![
            ("{}.{}"@, seq![domain_word, domain_tld]),
        ]);
        let domain = g.add_sound_template(domain_rules);
        let ghost domain_node = g.nodes@[domain as int];
        let username_rules = vec![
            TemplateRule::new("{}{}", vec![ascii_lowercase, ascii_last_name]),
            TemplateRule::new("{}{}{}", vec![ascii_lowercase, ascii_last_name, ascii_digit]),
            TemplateRule::new("{}{}{}{}", vec![ascii_lowercase, ascii_last_name, ascii_digit, ascii_digit]),
            TemplateRule::new("{}{}", vec![ascii_first_name, ascii_last_name]),
        ];
        assert(username_rules@[0].parts@ =~= seq![ascii_lowercase, ascii_last_name]);
        assert(username_rules@[1].parts@ =~= seq![ascii_lowercase, ascii_last_name, ascii_digit]);
        assert(username_rules@[2].parts@ =~= seq![ascii_lowercase, ascii_last_name, ascii_digit, ascii_digit]);
        assert(username_rules@[3].parts@ =~= seq![ascii_first_name, ascii_last_name]);
        assert(rule_views(Node::Template(username_rules)) =~= seq![
            ("{}{}"@, seq![ascii_lowercase, ascii_last_name]),
            ("{}{}{}"@, seq![ascii_lowercase, ascii_last_name, ascii_digit]),
            ("{}{}{}{}"@, seq![ascii_lowercase, ascii_last_name, ascii_digit, ascii_digit]),
            ("{}{}"@, seq![ascii_first_name, ascii_last_name]),
        ]);
        let username = g.add_sound_template(username_rules);
        let ghost username_node = g.nodes@[username as int];
        let email_rules = vec![
            TemplateRule::new("{}@{}", vec![username, domain]),
        ];
        assert(email_rules@[0].parts@ =~= seq![username, domain]);
        assert(rule_views(Node::Template(email_rules)) =~= seq![
            ("{}@{}"@, seq![username, domain]),
        ]);
        let email = g.add_sound_template(email_rules);
        let ghost email_node = g.nodes@[email as int];
        let phone_number_rules = vec![
            TemplateRule::new("0{} {}{} {}{} {}{} {}{}", vec![ascii_digit, ascii_digit, ascii_digit, ascii_digit, ascii_digit, ascii_digit, ascii_digit, ascii_digit, ascii_digit]),
        ];
        assert(phone_number_rules@[0].parts@ =~= seq![ascii_digit, ascii_digit, ascii_digit, ascii_digit, ascii_digit, ascii_digit, ascii_digit, ascii_digit, ascii_digit]);
        assert(rule_views(Node::Template(phone_number_rules)) =~= seq![
            ("0{} {}{} {}{} {}{} {}{}"@, seq![ascii_digit, ascii_digit, ascii_digit, ascii_digit, ascii_digit, ascii_digit, ascii_digit, ascii_digit, ascii_digit]),
        ]);
        let phone_number = g.add_sound_template(phone_number_rules);
        let ghost phone_number_node = g.nodes@[phone_number as int];
        let c = Catalog { grammar: g, first_name, last_name, name_prefix, city_name, street_prefix, street_suffix, division, company_suffix, domain_tld, ascii_digit, ascii_lowercase, ascii_last_name, ascii_first_name, full_name, street_name, building_number, street_address, secondary_address, postal_code, address, company_name, domain_word, domain, username, email, phone_number };
        assert(forall|i: int| 0 <= i < pools.len() ==> c.grammar.nodes@[i] == pools[i]);
        assert(c.grammar.nodes@[ascii_last_name as int] == ascii_last_name_node);
        assert(c.grammar.nodes@[ascii_first_name as int] == ascii_first_name_node);
        assert(c.grammar.nodes@[full_name as int] == full_name_node);
        assert(c.grammar.nodes@[street_name as int] == street_name_node);
        assert(c.grammar.nodes@[building_number as int] == building_number_node);
        assert(c.grammar.nodes@[street_address as int] == street_address_node);
        assert(c.grammar.nodes@[secondary_address as int] == secondary_address_node);
        assert(c.grammar.nodes@[postal_code as int] == postal_code_node);
        assert(c.grammar.nodes@[address as int] == address_node);
        assert(c.grammar.nodes@[company_name as int] == company_name_node);
        assert(c.grammar.nodes@[domain_word as int] == domain_word_node);
        assert(c.grammar.nodes@[domain as int] == domain_node);
        assert(c.grammar.nodes@[username as int] == username_node);
        assert(c.grammar.nodes@[email as int] == email_node);
        assert(c.grammar.nodes@[phone_number as int] == phone_number_node);
        Ok(c)
    }
}

} // verus!
