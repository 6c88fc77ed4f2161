//! The reply to a request for a category.
use vstd::prelude::*;
use vstd::string::*;
use crate::text::{append_decimal, decimal, push_char};

verus! {

/// A collection of categories, as the service returns it.
#[derive(Clone, Debug)]
pub struct Response {
    /// The categories that the query found.
    pub categories: Vec<Category>,
}

/// One category.
#[derive(Clone, Debug)]
pub struct Category {
    /// The id of the category.
    pub id: usize,
    /// The name of the category.
    pub name: String,
    /// The id of the category above this one.
    pub parent_id: usize,
    /// More about the category, where the service sent it.
    pub notes: Option<String>,
}

/// The line that describes each of `items`, each line ended by a line feed.
pub open spec fn listing(items: Seq<Category>) -> Seq<char>
    decreases items.len(),
{
    if items.len() == 0 {
        Seq::empty()
    } else {
        listing(items.drop_last()) + items.last().text().push('\n')
    }
}

impl Category {
    /// The line that describes the category: `Category <id>: <name>`.
    pub open spec fn text(&self) -> Seq<char> {
        "Category "@ + decimal(self.id as nat) + ": "@ + self.name@
    }

    /// Appends the line that describes the category to `out`.
    fn write_to(&self, out: &mut String)
        ensures
            final(out)@ == old(out)@ + self.text(),
    {
        out.append("Category ");
        append_decimal(out, self.id);
        out.append(": ");
        out.append(self.name.as_str());
        assert(out@ =~= old(out)@ + self.text());
    }

    /// The category as a line of text.
    pub fn to_text(&self) -> (line: String)
        ensures
            line@ == self.text(),
    {
        let mut out = String::new();
        self.write_to(&mut out);
        assert(out@ =~= self.text());
        out
    }
}

impl Default for Category {
    fn default() -> (category: Category)
        ensures
            category.id == 0,
            category.name@ == Seq::<char>::empty(),
            category.parent_id == 0,
            category.notes is None,
    {
        Category { id: 0, name: String::new(), parent_id: 0, notes: None }
    }
}

impl Response {
    /// What the reply reads as: the line of each category, in order.
    pub open spec fn text(&self) -> Seq<char> {
        listing(self.categories@)
    }

    /// The reply as text, one line for each category.
    pub fn to_text(&self) -> (lines: String)
        ensures
            lines@ == self.text(),
    {
        let mut out = String::new();
        let mut i: usize = 0;
        while i < self.categories.len()
            invariant
                i <= self.categories.len(),
                out@ == listing(self.categories@.take(i as int)),
            decreases self.categories.len() - i,
        {
            proof {
                let items = self.categories@;
                assert(items.take(i + 1).drop_last() =~= items.take(i as int));
                assert(items.take(i + 1).last() == items[i as int]);
            }
            let ghost before = out@;
            self.categories[i].write_to(&mut out);
            push_char(&mut out, '\n');
            assert(out@ =~= before + self.categories@[i as int].text().push('\n'));
            i += 1;
        }
        proof {
            assert(self.categories@.take(self.categories.len() as int) =~= self.categories@);
        }
        out
    }
}

impl Default for Response {
    fn default() -> (response: Response)
        ensures
            response.categories@ == Seq::<Category>::empty(),
    {
        Response { categories: Vec::new() }
    }
}

} // verus!
