//! Generators of "lorem ipsum" placeholder text.
use crate::grammar::{pool_values, rule_views, ConfigError, Grammar, Node, TemplateRule};
use crate::grammar::produced;
use crate::random::RandomSource;
use crate::text::{holes, lines_of, Transform};
use vstd::prelude::*;


verus! {

proof fn lemma_first_word_first()
    ensures
        holes("{}"@) == 1,
{
    reveal_strlit("{}");
    reveal_with_fuel(holes, 2);
}

proof fn lemma_sentence_first()
    ensures
        holes("{} {} {}."@) == 3,
{
    reveal_strlit("{} {} {}.");
    reveal_with_fuel(holes, 7);
}

proof fn lemma_sentence_second()
    ensures
        holes("{} {} {} {}."@) == 4,
{
    reveal_strlit("{} {} {} {}.");
    reveal_with_fuel(holes, 9);
}

proof fn lemma_sentence_third()
    ensures
        holes("{} {} {} {} {}."@) == 5,
{
    reveal_strlit("{} {} {} {} {}.");
    reveal_with_fuel(holes, 11);
}

proof fn lemma_sentence_fourth()
    ensures
        holes("{} {} {} {} {} {}."@) == 6,
{
    reveal_strlit("{} {} {} {} {} {}.");
    reveal_with_fuel(holes, 13);
}

proof fn lemma_sentence_fifth()
    ensures
        holes("{} {} {} {} {} {} {}."@) == 7,
{
    reveal_strlit("{} {} {} {} {} {} {}.");
    reveal_with_fuel(holes, 15);
}

proof fn lemma_paragraph_first()
    ensures
        holes("{} {} {}"@) == 3,
{
    reveal_strlit("{} {} {}");
    reveal_with_fuel(holes, 6);
}

proof fn lemma_paragraph_second()
    ensures
        holes("{} {} {} {}"@) == 4,
{
    reveal_strlit("{} {} {} {}");
    reveal_with_fuel(holes, 8);
}

proof fn lemma_paragraph_third()
    ensures
        holes("{} {} {} {} {}"@) == 5,
{
    reveal_strlit("{} {} {} {} {}");
    reveal_with_fuel(holes, 10);
}

proof fn lemma_paragraphs_first()
    ensures
        holes("{}\n{}\n{}\n"@) == 3,
{
    reveal_strlit("{}\n{}\n{}\n");
    reveal_with_fuel(holes, 7);
}

proof fn lemma_paragraphs_second()
    ensures
        holes("{}\n{}\n{}\n{}\n"@) == 4,
{
    reveal_strlit("{}\n{}\n{}\n{}\n");
    reveal_with_fuel(holes, 9);
}

proof fn lemma_paragraphs_third()
    ensures
        holes("{}\n{}\n{}\n{}\n{}\n"@) == 5,
{
    reveal_strlit("{}\n{}\n{}\n{}\n{}\n");
    reveal_with_fuel(holes, 11);
}

/// Generators of "lorem ipsum" placeholder text: one grammar and the position of each generator in it.
pub struct Lorem {
    pub grammar: Grammar,
    pub word: usize,
    pub capital: usize,
    pub first_word: usize,
    pub sentence: usize,
    pub paragraph: usize,
    pub paragraphs: usize,
}

impl Lorem {
    /// Whether the grammar is sound and holds every named generator.
    pub open spec fn wf(&self) -> bool {
        &&& self.grammar.wf()
        &&& self.word < self.grammar.nodes@.len()
        &&& self.capital < self.grammar.nodes@.len()
        &&& self.first_word < self.grammar.nodes@.len()
        &&& self.sentence < self.grammar.nodes@.len()
        &&& self.paragraph < self.grammar.nodes@.len()
        &&& self.paragraphs < self.grammar.nodes@.len()
    }

    /// Builds the generators over the words listed one per line in `words`.
    /// Fails only when the list has no lines.
    pub fn new(words: &str) -> (r: Result<Lorem, ConfigError>)
        ensures
            r is Err <==> lines_of(words@).len() == 0,
            r is Err ==> r == Err::<Lorem, ConfigError>(ConfigError::EmptyPool),
            r matches Ok(c) ==> c.wf()
                && pool_values(c.grammar.nodes@[c.word as int]) == lines_of(words@)
                && c.grammar.nodes@[c.capital as int] == Node::Transform(Transform::CapitalizeFirst, c.word)
                && rule_views(c.grammar.nodes@[c.first_word as int]) == seq![
                    ("{}"@, seq![c.capital]),
                ]
                && rule_views(c.grammar.nodes@[c.sentence as int]) == seq![
                    ("{} {} {}."@, seq![c.first_word, c.word, c.word]),
                    ("{} {} {} {}."@, seq![c.first_word, c.word, c.word, c.word]),
                    ("{} {} {} {} {}."@, seq![c.first_word, c.word, c.word, c.word, c.word]),
                    ("{} {} {} {} {} {}."@, seq![c.first_word, c.word, c.word, c.word, c.word, c.word]),
                    ("{} {} {} {} {} {} {}."@, seq![c.first_word, c.word, c.word, c.word, c.word, c.word, c.word]),
                ]
                && rule_views(c.grammar.nodes@[c.paragraph as int]) == seq![
                    ("{} {} {}"@, seq![c.sentence, c.sentence, c.sentence]),
                    ("{} {} {} {}"@, seq![c.sentence, c.sentence, c.sentence, c.sentence]),
                    ("{} {} {} {} {}"@, seq![c.sentence, c.sentence, c.sentence, c.sentence, c.sentence]),
                ]
                && rule_views(c.grammar.nodes@[c.paragraphs as int]) == seq![
                    ("{}\n{}\n{}\n"@, seq![c.paragraph, c.paragraph, c.paragraph]),
                    ("{}\n{}\n{}\n{}\n"@, seq![c.paragraph, c.paragraph, c.paragraph, c.paragraph]),
                    ("{}\n{}\n{}\n{}\n{}\n"@, seq![c.paragraph, c.paragraph, c.paragraph, c.paragraph, c.paragraph]),
                ],
    {
        proof {
            lemma_first_word_first();
            lemma_sentence_first();
            lemma_sentence_second();
            lemma_sentence_third();
            lemma_sentence_fourth();
            lemma_sentence_fifth();
            lemma_paragraph_first();
            lemma_paragraph_second();
            lemma_paragraph_third();
            lemma_paragraphs_first();
            lemma_paragraphs_second();
            lemma_paragraphs_third();
        }
        let mut g = Grammar::new();
        let word = match g.add_pool_from_lines(words) {
            Ok(id) => id,
            Err(e) => {
                return Err(e);
            },
        };
        let capital = match g.add_transform(Transform::CapitalizeFirst, word) {
            Ok(id) => id,
            Err(e) => {
                return Err(e);
            },
        };
        let ghost capital_node = g.nodes@[capital as int];
        let ghost pools = g.nodes@;
        let first_word_rules = vec![
            TemplateRule::new("{}", vec![capital]),
        ];
        assert(first_word_rules@[0].parts@ =~= seq![capital]);
        assert(rule_views(Node::Template(first_word_rules)) =~= seq![
            ("{}"@, seq![capital]),
        ]);
        let first_word = g.add_sound_template(first_word_rules);
        let ghost first_word_node = g.nodes@[first_word as int];
        let sentence_rules = vec![
            TemplateRule::new("{} {} {}.", vec![first_word, word, word]),
            TemplateRule::new("{} {} {} {}.", vec![first_word, word, word, word]),
            TemplateRule::new("{} {} {} {} {}.", vec![first_word, word, word, word, word]),
            TemplateRule::new("{} {} {} {} {} {}.", vec![first_word, word, word, word, word, word]),
            TemplateRule::new("{} {} {} {} {} {} {}.", vec![first_word, word, word, word, word, word, word]),
        ];
        assert(sentence_rules@[0].parts@ =~= seq![first_word, word, word]);
        assert(sentence_rules@[1].parts@ =~= seq![first_word, word, word, word]);
        assert(sentence_rules@[2].parts@ =~= seq![first_word, word, word, word, word]);
        assert(sentence_rules@[3].parts@ =~= seq![first_word, word, word, word, word, word]);
        assert(sentence_rules@[4].parts@ =~= seq![first_word, word, word, word, word, word, word]);
        assert(rule_views(Node::Template(sentence_rules)) =~= seq![
            ("{} {} {}."@, seq![first_word, word, word]),
            ("{} {} {} {}."@, seq![first_word, word, word, word]),
            ("{} {} {} {} {}."@, seq![first_word, word, word, word, word]),
            ("{} {} {} {} {} {}."@, seq![first_word, word, word, word, word, word]),
            ("{} {} {} {} {} {} {}."@, seq![first_word, word, word, word, word, word, word]),
        ]);
        let sentence = g.add_sound_template(sentence_rules);
        let ghost sentence_node = g.nodes@[sentence as int];
        let paragraph_rules = vec![
            TemplateRule::new("{} {} {}", vec![sentence, sentence, sentence]),
            TemplateRule::new("{} {} {} {}", vec![sentence, sentence, sentence, sentence]),
            TemplateRule::new("{} {} {} {} {}", vec![sentence, sentence, sentence, sentence, sentence]),
        ];
        assert(paragraph_rules@[0].parts@ =~= seq![sentence, sentence, sentence]);
        assert(paragraph_rules@[1].parts@ =~= seq![sentence, sentence, sentence, sentence]);
        assert(paragraph_rules@[2].parts@ =~= seq![sentence, sentence, sentence, sentence, sentence]);
        assert(rule_views(Node::Template(paragraph_rules)) =~= seq![
            ("{} {} {}"@, seq![sentence, sentence, sentence]),
            ("{} {} {} {}"@, seq![sentence, sentence, sentence, sentence]),
            ("{} {} {} {} {}"@, seq![sentence, sentence, sentence, sentence, sentence]),
        ]);
        let paragraph = g.add_sound_template(paragraph_rules);
        let ghost paragraph_node = g.nodes@[paragraph as int];
        let paragraphs_rules = vec![
            TemplateRule::new("{}\n{}\n{}\n", vec![paragraph, paragraph, paragraph]),
            TemplateRule::new("{}\n{}\n{}\n{}\n", vec![paragraph, paragraph, paragraph, paragraph]),
            TemplateRule::new("{}\n{}\n{}\n{}\n{}\n", vec![paragraph, paragraph, paragraph, paragraph, paragraph]),
        ];
        assert(paragraphs_rules@[0].parts@ =~= seq![paragraph, paragraph, paragraph]);
        assert(paragraphs_rules@[1].parts@ =~= seq![paragraph, paragraph, paragraph, paragraph]);
        assert(paragraphs_rules@[2].parts@ =~= seq![paragraph, paragraph, paragraph, paragraph, paragraph]);
        assert(rule_views(Node::Template(paragraphs_rules)) =~= seq![
            ("{}\n{}\n{}\n"@, seq![paragraph, paragraph, paragraph]),
            ("{}\n{}\n{}\n{}\n"@, seq![paragraph, paragraph, paragraph, paragraph]),
            ("{}\n{}\n{}\n{}\n{}\n"@, seq![paragraph, paragraph, paragraph, paragraph, paragraph]),
        ]);
        let paragraphs = g.add_sound_template(paragraphs_rules);
        let ghost paragraphs_node = g.nodes@[paragraphs as int];
        let c = Lorem { grammar: g, word, capital, first_word, sentence, paragraph, paragraphs };
        assert(forall|i: int| 0 <= i < pools.len() ==> c.grammar.nodes@[i] == pools[i]);
        assert(c.grammar.nodes@[capital as int] == capital_node);
        assert(c.grammar.nodes@[first_word as int] == first_word_node);
        assert(c.grammar.nodes@[sentence as int] == sentence_node);
        assert(c.grammar.nodes@[paragraph as int] == paragraph_node);
        assert(c.grammar.nodes@[paragraphs as int] == paragraphs_node);
        Ok(c)
    }
}

/// A lorem ipsum word.
pub struct Word(String);

impl View for Word {
    type V = Seq<char>;

    closed spec fn view(&self) -> Seq<char> {
        self.0@
    }
}

impl Word {
    /// Samples the generator of `c` named `word`.
    pub fn sample(c: &Lorem, rng: &mut RandomSource) -> (r: Self)
        requires
            c.wf(),
        ensures
            produced(c.grammar.nodes@, c.word as int, old(rng).drawn(), final(rng).drawn(), r@),
    {
        Word(c.grammar.sample(c.word, rng))
    }

    /// The sampled value.
    pub fn to_string(&self) -> (r: String)
        ensures
            r@ == self@,
    {
        self.0.clone()
    }
}

/// A lorem ipsum sentence: three to seven words, the first capitalized, ending in a full stop.
pub struct Sentence(String);

impl View for Sentence {
    type V = Seq<char>;

    closed spec fn view(&self) -> Seq<char> {
        self.0@
    }
}

impl Sentence {
    /// Samples the generator of `c` named `sentence`.
    pub fn sample(c: &Lorem, rng: &mut RandomSource) -> (r: Self)
        requires
            c.wf(),
        ensures
            produced(c.grammar.nodes@, c.sentence as int, old(rng).drawn(), final(rng).drawn(), r@),
    {
        Sentence(c.grammar.sample(c.sentence, rng))
    }

    /// The sampled value.
    pub fn to_string(&self) -> (r: String)
        ensures
            r@ == self@,
    {
        self.0.clone()
    }
}

/// A lorem ipsum paragraph: three to five sentences separated by spaces.
pub struct Paragraph(String);

impl View for Paragraph {
    type V = Seq<char>;

    closed spec fn view(&self) -> Seq<char> {
        self.0@
    }
}

impl Paragraph {
    /// Samples the generator of `c` named `paragraph`.
    pub fn sample(c: &Lorem, rng: &mut RandomSource) -> (r: Self)
        requires
            c.wf(),
        ensures
            produced(c.grammar.nodes@, c.paragraph as int, old(rng).drawn(), final(rng).drawn(), r@),
    {
        Paragraph(c.grammar.sample(c.paragraph, rng))
    }

    /// The sampled value.
    pub fn to_string(&self) -> (r: String)
        ensures
            r@ == self@,
    {
        self.0.clone()
    }
}

/// Lorem ipsum text: three to five paragraphs, each ending in a line feed.
pub struct Paragraphs(String);

impl View for Paragraphs {
    type V = Seq<char>;

    closed spec fn view(&self) -> Seq<char> {
        self.0@
    }
}

impl Paragraphs {
    /// Samples the generator of `c` named `paragraphs`.
    pub fn sample(c: &Lorem, rng: &mut RandomSource) -> (r: Self)
        requires
            c.wf(),
        ensures
            produced(c.grammar.nodes@, c.paragraphs as int, old(rng).drawn(), final(rng).drawn(), r@),
    {
        Paragraphs(c.grammar.sample(c.paragraphs, rng))
    }

    /// The sampled value.
    pub fn to_string(&self) -> (r: String)
        ensures
            r@ == self@,
    {
        self.0.clone()
    }
}

} // verus!
