use vstd::prelude::*;
use vstd::std_specs::iter::IteratorSpec;

verus! {

/// The text emitted for one element: the caption and `": "` before the
/// element's rendering when a caption is set, the rendering alone otherwise.
pub open spec fn line_of(prefix: Option<Seq<char>>, rendered: Seq<char>) -> Seq<char> {
    match prefix {
        Some(p) => p + seq![':', ' '] + rendered,
        None => rendered,
    }
}

/// Whether `line` is the emitted text for some rendering under `prefix`.
pub open spec fn is_line_for(prefix: Option<Seq<char>>, line: Seq<char>) -> bool {
    exists|t: Seq<char>| #[trigger] line_of(prefix, t) == line
}

/// The view of an optional caption.
pub open spec fn prefix_view(prefix: Option<String>) -> Option<Seq<char>> {
    match prefix {
        Some(p) => Some(p@),
        None => None,
    }
}

/// Under one caption, two emitted texts are equal exactly when the renderings
/// they were built from are equal: the same policy and the same elements give
/// the same text, and different renderings never collapse into one text.
pub proof fn lemma_line_determined(prefix: Option<Seq<char>>, a: Seq<char>, b: Seq<char>)
    ensures
        line_of(prefix, a) == line_of(prefix, b) <==> a == b,
{
    if let Some(p) = prefix {
        let head = p + seq![':', ' '];
        if line_of(prefix, a) == line_of(prefix, b) {
            assert(a =~= (head + a).skip(head.len() as int));
            assert(b =~= (head + b).skip(head.len() as int));
        }
    }
}

/// Builds the emitted text for one element out of its rendering.
pub fn compose_line(prefix: &Option<String>, rendered: String) -> (r: String)
    ensures
        r@ == line_of(prefix_view(*prefix), rendered@),
{
    match prefix {
        Some(p) => {
            let mut line = p.clone();
            line.append(": ");
            proof {
                reveal_strlit(": ");
            }
            line.append(rendered.as_str());
            line
        },
        None => rendered,
    }
}

/// Relies on std's `{:?}` formatting: the element's compact debug rendering,
/// whatever its `Debug` impl writes.
#[verifier::external_body]
fn render_compact<T: core::fmt::Debug>(x: &T) -> String {
    format!("{:?}", x)
}

/// Relies on std's `{:#?}` formatting: the element's multi-line debug rendering,
/// whatever its `Debug` impl writes.
#[verifier::external_body]
fn render_pretty<T: core::fmt::Debug>(x: &T) -> String {
    format!("{:#?}", x)
}

/// Wraps a source iterator and, on each pull, hands back the source's element
/// together with the text to emit for it.
pub struct DebugPrinter<I> {
    iter: I,
    pretty: bool,
    prefix: Option<String>,
}

impl<I: Iterator> DebugPrinter<I> where I::Item: core::fmt::Debug {
    /// The wrapped source.
    pub closed spec fn source(&self) -> I {
        self.iter
    }

    /// Whether elements are rendered in the multi-line form.
    pub closed spec fn is_pretty(&self) -> bool {
        self.pretty
    }

    /// The caption, if any.
    pub closed spec fn caption(&self) -> Option<Seq<char>> {
        prefix_view(self.prefix)
    }

    /// Wraps `x` with the given layout and optional caption.
    pub fn new(x: I, pretty: bool, msg: Option<String>) -> (r: Self)
        ensures
            r.source() == x,
            r.is_pretty() == pretty,
            r.caption() == prefix_view(msg),
    {
        DebugPrinter { iter: x, pretty, prefix: msg }
    }

    /// Pulls the next element of the source. When there is one, returns it
    /// unchanged with its emitted text; when the source is exhausted, returns
    /// `None` and there is nothing to emit.
    pub fn next(&mut self) -> (r: Option<(I::Item, String)>)
        ensures
            final(self).is_pretty() == old(self).is_pretty(),
            final(self).caption() == old(self).caption(),
            final(self).source().obeys_prophetic_iter_laws()
                == old(self).source().obeys_prophetic_iter_laws(),
            old(self).source().obeys_prophetic_iter_laws() ==> {
                if old(self).source().remaining().len() > 0 {
                    &&& r is Some
                    &&& (r->0).0 == old(self).source().remaining()[0]
                    &&& is_line_for(old(self).caption(), (r->0).1@)
                    &&& final(self).source().remaining() == old(self).source().remaining().drop_first()
                } else {
                    &&& r is None
                    &&& final(self).source().remaining() == old(self).source().remaining()
                }
            },
    {
        match self.iter.next() {
            None => None,
            Some(x) => {
                let rendered = if self.pretty {
                    render_pretty(&x)
                } else {
                    render_compact(&x)
                };
                let line = compose_line(&self.prefix, rendered);
                Some((x, line))
            },
        }
    }

    /// Pulls up to `n` elements, stopping early when the source runs out.
    /// Returns the elements in the order the source gave them, and one
    /// emitted text per element.
    pub fn pull(&mut self, n: usize) -> (r: (Vec<I::Item>, Vec<String>))
        requires
            old(self).source().obeys_prophetic_iter_laws(),
        ensures
            final(self).is_pretty() == old(self).is_pretty(),
            final(self).caption() == old(self).caption(),
            final(self).source().obeys_prophetic_iter_laws(),
            ({
                let rem = old(self).source().remaining();
                let k = if n < rem.len() { n as int } else { rem.len() as int };
                &&& r.0@ == rem.take(k)
                &&& r.1@.len() == r.0@.len()
                &&& forall|i: int| 0 <= i < r.1@.len() ==>
                        is_line_for(old(self).caption(), #[trigger] r.1@[i]@)
                &&& final(self).source().remaining() == rem.skip(k)
            }),
    {
        let ghost rem = self.source().remaining();
        let mut items: Vec<I::Item> = Vec::new();
        let mut lines: Vec<String> = Vec::new();
        let mut i: usize = 0;
        let mut done = false;
        while i < n && !done
            invariant
                done ==> i == rem.len(),
                self.is_pretty() == old(self).is_pretty(),
                self.caption() == old(self).caption(),
                self.source().obeys_prophetic_iter_laws(),
                rem == old(self).source().remaining(),
                i <= n,
                i <= rem.len(),
                items@ == rem.take(i as int),
                lines@.len() == i,
                forall|j: int| 0 <= j < lines@.len() ==>
                    is_line_for(old(self).caption(), #[trigger] lines@[j]@),
                self.source().remaining() == rem.skip(i as int),
            decreases n - i, if done { 0int } else { 1int },
        {
            match self.next() {
                None => {
                    assert(rem.skip(i as int).len() == 0);
                    done = true;
                },
                Some(pair) => {
                    let (x, line) = pair;
                    assert(rem.take(i as int + 1) == rem.take(i as int).push(x));
                    assert(rem.skip(i as int + 1) == rem.skip(i as int).drop_first());
                    items.push(x);
                    lines.push(line);
                    i = i + 1;
                },
            }
        }
        (items, lines)
    }
}


/// Adds the debug-printing adapters to every iterator.
pub trait DebugIterator: Iterator {
    /// Prints the compact debug rendering of each element.
    fn debug(self) -> (r: DebugPrinter<Self>)
        where Self: Sized, Self::Item: core::fmt::Debug,
        ensures
            r.source() == self,
            !r.is_pretty(),
            r.caption() is None,
    {
        DebugPrinter::new(self, false, None)
    }

    /// Prints the multi-line debug rendering of each element.
    fn debug_pretty(self) -> (r: DebugPrinter<Self>)
        where Self: Sized, Self::Item: core::fmt::Debug,
        ensures
            r.source() == self,
            r.is_pretty(),
            r.caption() is None,
    {
        DebugPrinter::new(self, true, None)
    }

    /// Prints the compact debug rendering of each element after a caption.
    fn debug_prefix(self, prefix: &str) -> (r: DebugPrinter<Self>)
        where Self: Sized, Self::Item: core::fmt::Debug,
        ensures
            r.source() == self,
            !r.is_pretty(),
            r.caption() == Some(prefix@),
    {
        DebugPrinter::new(self, false, Some(prefix.to_owned()))
    }

    /// Prints the multi-line debug rendering of each element after a caption.
    fn debug_prefix_pretty(self, prefix: &str) -> (r: DebugPrinter<Self>)
        where Self: Sized, Self::Item: core::fmt::Debug,
        ensures
            r.source() == self,
            r.is_pretty(),
            r.caption() == Some(prefix@),
    {
        DebugPrinter::new(self, true, Some(prefix.to_owned()))
    }
}

impl<T: Iterator> DebugIterator for T {}

} // verus!
