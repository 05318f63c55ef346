use faker_rand::en_us;
use faker_rand::fr_fr;
use faker_rand::grammar::{ConfigError, Grammar};
use faker_rand::lorem::{Lorem, Paragraph, Paragraphs, Sentence, Word};
use faker_rand::random::RandomSource;
use faker_rand::util::{AsciiDigit, AsciiLowercase, CapitalizeFirstLetter, ToAsciiLowercase};

fn us_lists() -> en_us::WordLists {
    en_us::WordLists {
        first_names: "Melvin\nJamey\n".to_string(),
        last_names: "Price\nO'Hara\n".to_string(),
        name_prefixes: "Mr.\nDr.".to_string(),
        name_suffixes: "Jr.\nDDS".to_string(),
        city_prefixes: "North\nWest".to_string(),
        city_suffixes: "ville\nmouth".to_string(),
        street_suffixes: "Street\nAvenue".to_string(),
        divisions: "Ohio\nTexas".to_string(),
        division_abbreviations: "OH\nTX".to_string(),
        company_suffixes: "Inc\nLLC".to_string(),
        slogan_adjectives: "Robust".to_string(),
        slogan_descriptors: "scalable".to_string(),
        slogan_nouns: "synergies".to_string(),
        domain_tlds: "com\norg".to_string(),
    }
}

fn fr_lists() -> fr_fr::WordLists {
    fr_fr::WordLists {
        first_names: "Élodie\nJérôme".to_string(),
        last_names: "Lefèvre\nDupré".to_string(),
        name_prefixes: "M.\nMme".to_string(),
        city_names: "Paris\nLyon".to_string(),
        street_prefixes: "Rue\nAvenue".to_string(),
        street_suffixes: "de la Paix\nVictor Hugo".to_string(),
        divisions: "Bretagne".to_string(),
        company_suffixes: "SA\nSARL".to_string(),
        domain_tlds: "fr".to_string(),
    }
}

fn all_digits(s: &str) -> bool {
    !s.is_empty() && s.chars().all(|c| c.is_ascii_digit())
}

#[test]
fn us_catalog_needs_every_list() {
    let mut lists = us_lists();
    lists.slogan_nouns = String::new();
    assert_eq!(en_us::Catalog::new(&lists).err(), Some(ConfigError::EmptyPool));
    assert!(en_us::Catalog::new(&us_lists()).is_ok());
}

#[test]
fn us_names() {
    let c = en_us::Catalog::new(&us_lists()).unwrap();
    let mut rng = RandomSource::seed_from_u64(0);
    for _ in 0..50 {
        let first = en_us::names::FirstName::sample(&c, &mut rng).to_string();
        assert!(first == "Melvin" || first == "Jamey");
        let last = en_us::names::LastName::sample(&c, &mut rng).to_string();
        assert!(last == "Price" || last == "O'Hara");
        let prefix = en_us::names::NamePrefix::sample(&c, &mut rng).to_string();
        assert!(prefix == "Mr." || prefix == "Dr.");
        let suffix = en_us::names::NameSuffix::sample(&c, &mut rng).to_string();
        assert!(suffix == "Jr." || suffix == "DDS");
        let full = en_us::names::FullName::sample(&c, &mut rng).to_string();
        let words = full.split(' ').count();
        assert!((2..=4).contains(&words), "{}", full);
    }
}

#[test]
fn us_addresses() {
    let c = en_us::Catalog::new(&us_lists()).unwrap();
    let mut rng = RandomSource::seed_from_u64(5);
    for _ in 0..50 {
        let zip = en_us::addresses::PostalCode::sample(&c, &mut rng).to_string();
        let ok = (zip.len() == 5 && all_digits(&zip))
            || (zip.len() == 10 && all_digits(&zip[..5]) && &zip[5..6] == "-" && all_digits(&zip[6..]));
        assert!(ok, "{}", zip);
        let street = en_us::addresses::StreetAddress::sample(&c, &mut rng).to_string();
        let number = street.split(' ').next().unwrap();
        assert!(all_digits(number) && (3..=5).contains(&number.len()), "{}", street);
        let secondary = en_us::addresses::SecondaryAddress::sample(&c, &mut rng).to_string();
        assert!(secondary.starts_with("Apt. ") || secondary.starts_with("Suite "));
        let city = en_us::addresses::CityName::sample(&c, &mut rng).to_string();
        assert!(!city.is_empty());
        let name = en_us::addresses::StreetName::sample(&c, &mut rng).to_string();
        assert!(name.ends_with("Street") || name.ends_with("Avenue"));
        let division = en_us::addresses::Division::sample(&c, &mut rng).to_string();
        assert!(division == "Ohio" || division == "Texas");
        let abbreviation = en_us::addresses::DivisionAbbreviation::sample(&c, &mut rng).to_string();
        assert!(abbreviation == "OH" || abbreviation == "TX");
        let address = en_us::addresses::Address::sample(&c, &mut rng).to_string();
        assert!(address.ends_with('\n'));
        assert_eq!(address.matches('\n').count(), 3);
    }
}

#[test]
fn us_company_internet_phone() {
    let c = en_us::Catalog::new(&us_lists()).unwrap();
    let mut rng = RandomSource::seed_from_u64(9);
    for _ in 0..50 {
        let company = en_us::company::CompanyName::sample(&c, &mut rng).to_string();
        assert!(!company.is_empty());
        assert_eq!(en_us::company::Slogan::sample(&c, &mut rng).to_string(), "Robust scalable synergies");
        let domain = en_us::internet::Domain::sample(&c, &mut rng).to_string();
        assert!(domain == "price.com" || domain == "price.org" || domain == "ohara.com" || domain == "ohara.org", "{}", domain);
        let user = en_us::internet::Username::sample(&c, &mut rng).to_string();
        assert!(user.chars().all(|ch| ch.is_ascii_lowercase() || ch.is_ascii_digit()), "{}", user);
        let email = en_us::internet::Email::sample(&c, &mut rng).to_string();
        assert_eq!(email.matches('@').count(), 1);
        let phone = en_us::phones::PhoneNumber::sample(&c, &mut rng).to_string();
        let shape: String = phone.chars().map(|ch| if ch.is_ascii_digit() { 'x' } else { ch }).collect();
        assert_eq!(shape, "(xxx) xxx-xxxx");
    }
}

#[test]
fn fr_catalog() {
    let mut lists = fr_lists();
    lists.city_names = String::new();
    assert_eq!(fr_fr::Catalog::new(&lists).err(), Some(ConfigError::EmptyPool));
    let c = fr_fr::Catalog::new(&fr_lists()).unwrap();
    let mut rng = RandomSource::seed_from_u64(4);
    for _ in 0..50 {
        let first = fr_fr::names::FirstName::sample(&c, &mut rng).to_string();
        assert!(first == "Élodie" || first == "Jérôme");
        let last = fr_fr::names::LastName::sample(&c, &mut rng).to_string();
        assert!(last == "Lefèvre" || last == "Dupré");
        let prefix = fr_fr::names::NamePrefix::sample(&c, &mut rng).to_string();
        assert!(prefix == "M." || prefix == "Mme");
        let full = fr_fr::names::FullName::sample(&c, &mut rng).to_string();
        assert!((2..=3).contains(&full.split(' ').count()));
        let city = fr_fr::addresses::CityName::sample(&c, &mut rng).to_string();
        assert!(city == "Paris" || city == "Lyon");
        let street = fr_fr::addresses::StreetName::sample(&c, &mut rng).to_string();
        assert!(street.starts_with("Rue ") || street.starts_with("Avenue "));
        let number = fr_fr::addresses::StreetAddress::sample(&c, &mut rng).to_string();
        assert!(all_digits(number.split(' ').next().unwrap()));
        let secondary = fr_fr::addresses::SecondaryAddress::sample(&c, &mut rng).to_string();
        assert!(secondary.starts_with("Apt. ") || secondary.ends_with(" étage"));
        assert_eq!(fr_fr::addresses::Division::sample(&c, &mut rng).to_string(), "Bretagne");
        let code = fr_fr::addresses::PostalCode::sample(&c, &mut rng).to_string();
        assert!(code.len() == 5 && all_digits(&code));
        let address = fr_fr::addresses::Address::sample(&c, &mut rng).to_string();
        assert!(address.ends_with("\nFRANCE\n"));
        let company = fr_fr::company::CompanyName::sample(&c, &mut rng).to_string();
        assert!(company.ends_with(" SA") || company.ends_with(" SARL"));
        let domain = fr_fr::internet::Domain::sample(&c, &mut rng).to_string();
        assert!(domain == "lefevre.fr" || domain == "dupre.fr", "{}", domain);
        let user = fr_fr::internet::Username::sample(&c, &mut rng).to_string();
        assert!(user.chars().all(|ch| ch.is_ascii_lowercase() || ch.is_ascii_digit()), "{}", user);
        let email = fr_fr::internet::Email::sample(&c, &mut rng).to_string();
        assert!(email.ends_with(".fr"));
        let phone = fr_fr::phones::PhoneNumber::sample(&c, &mut rng).to_string();
        let shape: String = phone.chars().map(|ch| if ch.is_ascii_digit() { 'x' } else { ch }).collect();
        assert_eq!(shape, "xx xx xx xx xx");
        assert!(phone.starts_with('0'));
    }
}

#[test]
fn lorem_text() {
    assert_eq!(Lorem::new("").err(), Some(ConfigError::EmptyPool));
    let l = Lorem::new("lorem\nipsum\ndolor\n").unwrap();
    let mut rng = RandomSource::seed_from_u64(12);
    for _ in 0..20 {
        let w = Word::sample(&l, &mut rng).to_string();
        assert!(w == "lorem" || w == "ipsum" || w == "dolor");
        let s = Sentence::sample(&l, &mut rng).to_string();
        assert!(s.ends_with('.'));
        assert!(s.chars().next().unwrap().is_uppercase());
        assert!((3..=7).contains(&s.split(' ').count()), "{}", s);
        let p = Paragraph::sample(&l, &mut rng).to_string();
        assert!((3..=5).contains(&p.matches('.').count()), "{}", p);
        let text = Paragraphs::sample(&l, &mut rng).to_string();
        assert!((3..=5).contains(&text.matches('\n').count()));
        assert!(text.ends_with('\n'));
    }
}

#[test]
fn util_generators() {
    let mut rng = RandomSource::seed_from_u64(0);
    let mut seen_digits = [false; 10];
    for _ in 0..500 {
        let d = AsciiDigit::sample(&mut rng).to_string();
        assert_eq!(d.len(), 1);
        seen_digits[d.parse::<usize>().unwrap()] = true;
        let l = AsciiLowercase::sample(&mut rng).to_string();
        assert!(l.len() == 1 && l.chars().all(|c| c.is_ascii_lowercase()));
    }
    assert!(seen_digits.iter().all(|s| *s));
    let mut g = Grammar::new();
    let names = g.add_pool_from_lines("Jérôme\nÉlodie").unwrap();
    let words = g.add_pool_from_lines("impedit").unwrap();
    for _ in 0..10 {
        let a = ToAsciiLowercase::sample(&g, names, &mut rng).to_string();
        assert!(a == "jerome" || a == "elodie");
        assert_eq!(CapitalizeFirstLetter::sample(&g, words, &mut rng).to_string(), "Impedit");
    }
}
