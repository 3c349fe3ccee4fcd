//! Jump mode: two-letter tags on the tokens in sight, and the position
//! that each tag stands for.
pub mod tag_generator;

use vstd::prelude::*;
use crate::buffer::position::Position;
use crate::helpers::token::{
    coordinates,
    is_blank,
    lemma_joined_length,
    lemma_token_start_bound,
    scan_lexeme,
    token_start,
};
use crate::text::{chars_of, string_from};
use crate::token::{Category, Token, TokenView, joined_lexemes, token_views};
use crate::view::scrollable_region::saturating_sum;
use self::tag_generator::{TagGenerator, tag_at};

verus! {

/// A tag and the position it leads to.
pub struct TagPosition {
    pub tag: String,
    pub position: Position,
}

/// A tag and its position, as a value.
pub struct TagView {
    pub tag: Seq<char>,
    pub position: Position,
}

impl View for TagPosition {
    type V = TagView;

    open spec fn view(&self) -> TagView {
        TagView { tag: self.tag@, position: self.position }
    }
}

/// The entries of a sequence, each as a value.
pub open spec fn tag_views(entries: Seq<TagPosition>) -> Seq<TagView> {
    entries.map_values(|e: TagPosition| e@)
}

/// Whether a token can carry a tag: it is not whitespace throughout, and
/// it begins with two characters on one line for the tag to stand on.
pub open spec fn taggable(token: TokenView) -> bool {
    &&& !is_blank(token.lexeme)
    &&& token.lexeme.len() >= 2
    &&& token.lexeme[0] != '\n'
    &&& token.lexeme[1] != '\n'
}

/// How many of the first `i` tokens can carry a tag.
pub open spec fn taggable_before(tokens: Seq<TokenView>, i: int) -> int
    decreases i,
{
    if i <= 0 {
        0
    } else {
        taggable_before(tokens, i - 1) + if taggable(tokens[i - 1]) {
            1int
        } else {
            0int
        }
    }
}

/// The place in the cycle of the tag that token `i` gets: tokens that can
/// carry a tag get the tags of the cycle in order, and once the cycle is
/// used up the tokens that follow get none.
pub open spec fn tag_index(tokens: Seq<TokenView>, i: int) -> Option<int> {
    if taggable(tokens[i]) && taggable_before(tokens, i) < 676 {
        Some(taggable_before(tokens, i))
    } else {
        None
    }
}

/// The first `count` tokens with their tags laid over them: a tag takes
/// the place of the first two characters of its token, as a token of its
/// own.
pub open spec fn overlaid(tokens: Seq<TokenView>, count: int) -> Seq<TokenView>
    decreases count,
{
    if count <= 0 {
        Seq::empty()
    } else {
        let before = overlaid(tokens, count - 1);
        let token = tokens[count - 1];
        match tag_index(tokens, count - 1) {
            Some(k) => {
                let tagged = before.push(
                    TokenView { lexeme: tag_at(k), category: Category::Keyword },
                );
                if token.lexeme.len() > 2 {
                    tagged.push(
                        TokenView { lexeme: token.lexeme.skip(2), category: token.category },
                    )
                } else {
                    tagged
                }
            },
            None => before.push(token),
        }
    }
}

/// The tags handed out over the first `count` tokens, each with the
/// position in the buffer at which its token begins. The tokens begin
/// `first_line` lines into the buffer.
pub open spec fn targets(tokens: Seq<TokenView>, count: int, first_line: usize) -> Seq<TagView>
    decreases count,
{
    if count <= 0 {
        Seq::empty()
    } else {
        let before = targets(tokens, count - 1, first_line);
        match tag_index(tokens, count - 1) {
            Some(k) => before.push(
                TagView {
                    tag: tag_at(k),
                    position: Position {
                        line: saturating_sum(
                            token_start(tokens, count - 1).0,
                            first_line as int,
                        ) as usize,
                        offset: token_start(tokens, count - 1).1 as usize,
                    },
                },
            ),
            None => before,
        }
    }
}

/// The position that a tag stands for: that of the first entry with this
/// tag.
pub open spec fn target_of(entries: Seq<TagView>, tag: Seq<char>) -> Option<Position>
    decreases entries.len(),
{
    if entries.len() == 0 {
        None
    } else if entries[0].tag == tag {
        Some(entries[0].position)
    } else {
        target_of(entries.drop_first(), tag)
    }
}

/// The tags are handed out in the order of the cycle: entry `m` carries
/// the tag at place `m`, and there are as many entries as tokens that can
/// carry a tag, or as the cycle has tags.
pub proof fn lemma_targets_in_order(tokens: Seq<TokenView>, count: int, first_line: usize)
    requires
        0 <= count,
    ensures
        0 <= taggable_before(tokens, count) <= count,
        targets(tokens, count, first_line).len() == if taggable_before(tokens, count) < 676 {
            taggable_before(tokens, count)
        } else {
            676
        },
        forall|m: int|
            0 <= m < targets(tokens, count, first_line).len() ==> (#[trigger] targets(
                tokens,
                count,
                first_line,
            )[m]).tag == tag_at(m),
    decreases count,
{
    if count > 0 {
        lemma_targets_in_order(tokens, count - 1, first_line);
    }
}

/// Within one session no two targets share a tag.
pub proof fn lemma_tags_unique(
    tokens: Seq<TokenView>,
    count: int,
    first_line: usize,
    m: int,
    n: int,
)
    requires
        0 <= count,
        0 <= m < n < targets(tokens, count, first_line).len(),
    ensures
        targets(tokens, count, first_line)[m].tag != targets(tokens, count, first_line)[n].tag,
{
    lemma_targets_in_order(tokens, count, first_line);
    tag_generator::lemma_tags_distinct(m, n);
}

pub struct JumpMode {
    pub input: String,
    tag_generator: TagGenerator,
    tag_positions: Vec<TagPosition>,
}

impl JumpMode {
    /// What was typed so far.
    pub closed spec fn typed(&self) -> Seq<char> {
        self.input@
    }

    /// The tags handed out in this session, in the order of their targets.
    pub closed spec fn tagged(&self) -> Seq<TagView> {
        tag_views(self.tag_positions@)
    }

    pub fn new() -> (r: JumpMode)
        ensures
            r.typed().len() == 0,
            r.tagged().len() == 0,
    {
        let r = JumpMode {
            input: String::new(),
            tag_generator: tag_generator::new(),
            tag_positions: Vec::new(),
        };
        proof {
            assert(tag_views(r.tag_positions@) =~= Seq::<TagView>::empty());
        }
        r
    }

    /// Takes one more typed character.
    pub fn type_character(&mut self, character: char)
        ensures
            final(self).typed() == old(self).typed().push(character),
            final(self).tagged() == old(self).tagged(),
    {
        self.input.push(character);
    }

    /// What was typed so far.
    pub fn typed_text(&self) -> (r: &str)
        ensures
            r@ == self.typed(),
    {
        self.input.as_str()
    }

    /// Starts a fresh session over the tokens in sight, which begin
    /// `first_line` lines into the buffer: every token that can carry a
    /// tag gets the next tag of the cycle, until the cycle is used up.
    /// Yields the tokens with the tags laid over them.
    pub fn tag_tokens(&mut self, tokens: &Vec<Token>, first_line: usize) -> (r: Vec<Token>)
        requires
            joined_lexemes(token_views(tokens@), tokens@.len() as int).len() <= usize::MAX,
        ensures
            final(self).typed() == old(self).typed(),
            final(self).tagged() == targets(
                token_views(tokens@),
                tokens@.len() as int,
                first_line,
            ),
            token_views(r@) == overlaid(token_views(tokens@), tokens@.len() as int),
    {
        let ghost views = token_views(tokens@);
        let mut jump_tokens: Vec<Token> = Vec::new();
        self.tag_generator.reset();
        self.tag_positions = Vec::new();
        let mut start = Position { line: 0, offset: 0 };
        let mut i: usize = 0;
        proof {
            assert(token_views(jump_tokens@) =~= Seq::<TokenView>::empty());
            assert(tag_views(self.tag_positions@) =~= Seq::<TagView>::empty());
        }
        while i < tokens.len()
            invariant
                i <= tokens.len(),
                views == token_views(tokens@),
                joined_lexemes(views, tokens@.len() as int).len() <= usize::MAX,
                self.typed() == old(self).typed(),
                coordinates(start) == token_start(views, i as int),
                0 <= taggable_before(views, i as int),
                self.tag_generator.position() == if taggable_before(views, i as int) < 676 {
                    taggable_before(views, i as int)
                } else {
                    676
                },
                tag_views(self.tag_positions@) == targets(views, i as int, first_line),
                token_views(jump_tokens@) == overlaid(views, i as int),
            decreases tokens.len() - i,
        {
            let token = &tokens[i];
            proof {
                lemma_token_start_bound(views, i as int);
                lemma_joined_length(views, i as int, tokens@.len() as int);
                assert(views[i as int] == tokens@[i as int]@);
                reveal_with_fuel(tag_generator::index_after, 2);
            }
            let (end, blank) = scan_lexeme(token.lexeme.as_str(), start);
            let characters = chars_of(token.lexeme.as_str());
            let can_carry: bool = !blank && characters.len() >= 2 && characters[0] != '\n'
                && characters[1] != '\n';
            let tag: Option<String> = if can_carry {
                self.tag_generator.next()
            } else {
                None
            };
            match tag {
                Some(tag) => {
                    // Keep the position that the tag stands for.
                    let entry = TagPosition {
                        tag: tag.clone(),
                        position: Position {
                            line: start.line.saturating_add(first_line),
                            offset: start.offset,
                        },
                    };
                    proof {
                        assert(tag_views(self.tag_positions@.push(entry)) =~= tag_views(
                            self.tag_positions@,
                        ).push(entry@));
                    }
                    self.tag_positions.push(entry);

                    // Lay the tag over the start of the token.
                    let label = Token { lexeme: tag, category: Category::Keyword };
                    proof {
                        assert(token_views(jump_tokens@.push(label)) =~= token_views(
                            jump_tokens@,
                        ).push(label@));
                    }
                    jump_tokens.push(label);
                    if characters.len() > 2 {
                        let rest = Token {
                            lexeme: string_from(&characters, 2),
                            category: token.category,
                        };
                        proof {
                            assert(token_views(jump_tokens@.push(rest)) =~= token_views(
                                jump_tokens@,
                            ).push(rest@));
                        }
                        jump_tokens.push(rest);
                    }
                },
                None => {
                    let plain = Token {
                        lexeme: string_from(&characters, 0),
                        category: token.category,
                    };
                    proof {
                        assert(characters@.skip(0) =~= characters@);
                        assert(plain@ == views[i as int]);
                        assert(token_views(jump_tokens@.push(plain)) =~= token_views(
                            jump_tokens@,
                        ).push(plain@));
                    }
                    jump_tokens.push(plain);
                },
            }
            start = end;
            i += 1;
        }
        jump_tokens
    }

    /// The position that a tag of this session stands for.
    pub fn map_tag(&self, tag: &str) -> (r: Option<Position>)
        ensures
            r == target_of(self.tagged(), tag@),
    {
        let ghost entries = tag_views(self.tag_positions@);
        let mut i: usize = 0;
        proof {
            assert(entries.skip(0) =~= entries);
        }
        while i < self.tag_positions.len()
            invariant
                i <= self.tag_positions.len(),
                entries == tag_views(self.tag_positions@),
                target_of(entries, tag@) == target_of(entries.skip(i as int), tag@),
            decreases self.tag_positions.len() - i,
        {
            proof {
                let rest = entries.skip(i as int);
                assert(rest[0] == self.tag_positions@[i as int]@);
                assert(rest.drop_first() =~= entries.skip(i + 1));
            }
            if same_text(self.tag_positions[i].tag.as_str(), tag) {
                return Some(self.tag_positions[i].position);
            }
            i += 1;
        }
        None
    }
}

/// Whether two strings hold the same characters.
pub fn same_text(a: &str, b: &str) -> (r: bool)
    ensures
        r == (a@ == b@),
{
    let x = chars_of(a);
    let y = chars_of(b);
    if x.len() != y.len() {
        return false;
    }
    let mut i: usize = 0;
    while i < x.len()
        invariant
            i <= x.len(),
            x.len() == y.len(),
            x@ == a@,
            y@ == b@,
            forall|k: int| 0 <= k < i ==> x@[k] == y@[k],
        decreases x.len() - i,
    {
        if x[i] != y[i] {
            proof {
                assert(a@[i as int] != b@[i as int]);
            }
            return false;
        }
        i += 1;
    }
    proof {
        assert(x@ =~= y@);
    }
    true
}

} // verus!
