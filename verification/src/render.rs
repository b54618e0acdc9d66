//! The fragment renderer: a name-to-value context, and the substitution of
//! one variable into the literal text around it.

use vstd::prelude::*;
use vstd::string::StrSliceExecFns;
use vstd::string::StringExecFns;

use crate::ExpressionData;

verus! {

/// The mapping a sequence of name/value pairs stands for; a later pair for
/// the same name wins.
spec fn pairs_map(ps: Seq<(String, String)>) -> Map<Seq<char>, Seq<char>>
    decreases ps.len(),
{
    if ps.len() == 0 {
        Map::empty()
    } else {
        pairs_map(ps.drop_last()).insert(ps.last().0@, ps.last().1@)
    }
}

/// The variable context supplied at render time: a mapping from variable
/// name to value. Keys behave as unique and insertion order is irrelevant;
/// it is viewed as a [`Map`] from name to value.
pub struct Context {
    pairs: Vec<(String, String)>,
}

impl View for Context {
    type V = Map<Seq<char>, Seq<char>>;

    closed spec fn view(&self) -> Map<Seq<char>, Seq<char>> {
        pairs_map(self.pairs@)
    }
}

/// Looking up a name among the pairs before position `i` gives the same
/// answer as among all of them, as long as no pair at or after `i` carries
/// that name.
proof fn lemma_pairs_map_agree(ps: Seq<(String, String)>, name: Seq<char>, i: int)
    requires
        0 <= i <= ps.len(),
        forall|j: int| i <= j < ps.len() ==> ps[j].0@ != name,
    ensures
        pairs_map(ps).contains_key(name) == pairs_map(ps.take(i)).contains_key(name),
        pairs_map(ps).contains_key(name) ==> pairs_map(ps)[name] == pairs_map(ps.take(i))[name],
    decreases ps.len() - i,
{
    if i == ps.len() {
        assert(ps.take(i) =~= ps);
    } else {
        lemma_pairs_map_agree(ps, name, i + 1);
        assert(ps.take(i + 1).drop_last() =~= ps.take(i));
        assert(pairs_map(ps.take(i + 1)) == pairs_map(ps.take(i)).insert(ps[i].0@, ps[i].1@));
    }
}

/// Character-by-character string comparison.
fn str_eq(a: &str, b: &str) -> (r: bool)
    ensures
        r == (a@ == b@),
{
    let n = a.unicode_len();
    if n != b.unicode_len() {
        return false;
    }
    let mut i: usize = 0;
    while i < n
        invariant
            n == a@.len(),
            n == b@.len(),
            i <= n,
            forall|j: int| 0 <= j < i ==> a@[j] == b@[j],
        decreases n - i,
    {
        if a.get_char(i) != b.get_char(i) {
            return false;
        }
        i += 1;
    }
    proof {
        assert(a@ =~= b@);
    }
    true
}

impl Context {
    /// An empty context: no variable has a value.
    pub fn new() -> (c: Context)
        ensures
            c@ == Map::<Seq<char>, Seq<char>>::empty(),
    {
        let c = Context { pairs: Vec::new() };
        proof {
            assert(c@ =~= Map::<Seq<char>, Seq<char>>::empty());
        }
        c
    }

    /// Bind `name` to `value`, replacing any earlier binding of `name`.
    pub fn insert(&mut self, name: String, value: String)
        ensures
            final(self)@ == old(self)@.insert(name@, value@),
    {
        let ghost before = self.pairs@;
        self.pairs.push((name, value));
        proof {
            assert(self.pairs@.drop_last() =~= before);
        }
    }

    /// Look up the value bound to `name`, if any.
    pub fn get<'a>(&'a self, name: &str) -> (r: Option<&'a String>)
        ensures
            (match r {
                Some(v) => self@.contains_key(name@) && v@ == self@[name@],
                None => !self@.contains_key(name@),
            }),
    {
        let ghost ps = self.pairs@;
        let mut i: usize = self.pairs.len();
        while i > 0
            invariant
                ps == self.pairs@,
                i <= ps.len(),
                forall|j: int| i <= j < ps.len() ==> ps[j].0@ != name@,
            decreases i,
        {
            i = i - 1;
            if str_eq(self.pairs[i].0.as_str(), name) {
                proof {
                    lemma_pairs_map_agree(ps, name@, i + 1);
                    assert(ps.take(i + 1).drop_last() =~= ps.take(i as int));
                    assert(pairs_map(ps.take(i + 1)) == pairs_map(ps.take(i as int)).insert(
                        ps[i as int].0@,
                        ps[i as int].1@,
                    ));
                }
                return Some(&self.pairs[i].1);
            }
        }
        proof {
            lemma_pairs_map_agree(ps, name@, 0);
            assert(ps.take(0) =~= Seq::<(String, String)>::empty());
        }
        None
    }
}

/// The text an optional fragment contributes: its characters, or nothing.
pub open spec fn opt_text(o: Option<String>) -> Seq<char> {
    match o {
        Some(s) => s@,
        None => Seq::empty(),
    }
}

/// The text the context contributes for a variable: its value when the name
/// is bound, and nothing at all when it is not.
pub open spec fn context_value(ctx: Map<Seq<char>, Seq<char>>, name: Seq<char>) -> Seq<char> {
    if ctx.contains_key(name) {
        ctx[name]
    } else {
        Seq::empty()
    }
}

/// What rendering an extracted expression produces: the head, then the
/// variable's value (silently omitted when the context has no binding),
/// then the tail.
pub open spec fn rendered(e: ExpressionData, ctx: Map<Seq<char>, Seq<char>>) -> Seq<char> {
    opt_text(e.head) + context_value(ctx, e.variable@) + opt_text(e.tail)
}

/// Render one extracted expression against a context: append the head if
/// present, then the variable's value if the context binds it (a missing
/// variable is omitted, never an error), then the tail if present.
pub fn generate_html_template_var(content: ExpressionData, context: &Context) -> (html: String)
    ensures
        html@ == rendered(content, context@),
{
    let mut html = String::new();
    match &content.head {
        Some(h) => html.append(h.as_str()),
        None => {},
    }
    match context.get(content.variable.as_str()) {
        Some(val) => html.append(val.as_str()),
        None => {},
    }
    match &content.tail {
        Some(t) => html.append(t.as_str()),
        None => {},
    }
    proof {
        assert(html@ =~= rendered(content, context@));
    }
    html
}

} // verus!
