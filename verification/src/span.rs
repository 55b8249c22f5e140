//! Tags that say where a command is defined, and the metadata slot of a
//! command in which they are kept, one over another.

use vstd::prelude::*;

verus! {

/// What the metadata slot of a command holds.
#[derive(Debug, PartialEq, Eq)]
pub enum Metadata {
    /// Nothing was attached.
    Empty,
    /// A tag that says where the command is defined.
    Span(Box<Spanned>),
    /// An annotation of some other kind, known here by its label alone.
    Foreign(String),
}

/// The place where a command is defined, laid over whatever the slot held
/// before the tag was attached.
#[derive(Debug, PartialEq, Eq)]
pub struct Spanned {
    pub file: &'static str,
    pub line: u32,
    pub inner: Metadata,
}

/// A file and a line in it.
pub struct Site {
    pub file: Seq<char>,
    pub line: u32,
}

/// One invocable command, as the registry lists it.
#[derive(Clone, Debug, PartialEq, Eq)]
pub struct Command {
    pub name: String,
    pub aliases: Vec<String>,
    pub category: Option<String>,
    pub custom_data: Metadata,
}

impl Spanned {
    /// The place that this tag names.
    pub open spec fn site(self) -> Site {
        Site { file: self.file@, line: self.line }
    }
}

impl Metadata {
    /// The number of tags that lie over one another, from this one down to
    /// the first thing that is no tag.
    pub open spec fn depth(self) -> nat
        decreases self,
    {
        match self {
            Metadata::Span(tag) => 1 + tag.inner.depth(),
            _ => 0,
        }
    }

    /// The tags that lie over one another, the outermost first.
    pub open spec fn layers(self) -> Seq<Spanned>
        decreases self,
    {
        match self {
            Metadata::Span(tag) => seq![*tag] + tag.inner.layers(),
            _ => Seq::empty(),
        }
    }

    /// The places that the tags name, the outermost tag first.
    pub open spec fn sites(self) -> Seq<Site>
        decreases self,
    {
        match self {
            Metadata::Span(tag) => seq![tag.site()] + tag.inner.sites(),
            _ => Seq::empty(),
        }
    }

    /// What lies under all the tags.
    pub open spec fn base(self) -> Metadata
        decreases self,
    {
        match self {
            Metadata::Span(tag) => tag.inner.base(),
            _ => self,
        }
    }

    /// The tag on top, where the slot holds a tag.
    pub open spec fn span(self) -> Option<Spanned> {
        match self {
            Metadata::Span(tag) => Some(*tag),
            _ => None,
        }
    }

    /// The slot with one more tag laid over it.
    pub open spec fn tagged(self, file: &'static str, line: u32) -> Metadata {
        Metadata::Span(Box::new(Spanned { file, line, inner: self }))
    }

    /// Reads the slot as a tag. Only the slot itself is tried: a tag that
    /// lies under an annotation of another kind is not found.
    pub fn as_span(&self) -> (found: Option<&Spanned>)
        ensures
            found == match self.span() {
                Some(tag) => Some(&tag),
                None => None,
            },
    {
        match self {
            Metadata::Span(tag) => Some(&**tag),
            _ => None,
        }
    }

    /// Walks the tags that lie over one another in the slot, the outermost
    /// first.
    pub fn chain(&self) -> (tags: Vec<&Spanned>)
        ensures
            tags@.map_values(|tag: &Spanned| *tag) == self.layers(),
            tags.len() == self.depth(),
    {
        let mut tags: Vec<&Spanned> = Vec::new();
        let mut at = self;
        loop
            invariant
                tags@.map_values(|tag: &Spanned| *tag) + at.layers() == self.layers(),
            decreases at.depth(),
        {
            match at {
                Metadata::Span(tag) => {
                    let ghost before = tags@;
                    tags.push(&**tag);
                    at = &tag.inner;
                    assert(tags@.map_values(|tag: &Spanned| *tag) =~= before.map_values(
                        |tag: &Spanned| *tag,
                    ) + seq![**tag]);
                },
                _ => {
                    assert(at.layers() =~= Seq::<Spanned>::empty());
                    proof {
                        lemma_layers(*self);
                    }
                    return tags;
                },
            }
        }
    }
}

/// The layers of a slot are as many as the slot is deep, and the places of
/// the slot are the places that its layers name.
pub proof fn lemma_layers(slot: Metadata)
    ensures
        slot.layers().len() == slot.depth(),
        slot.layers().map_values(|tag: Spanned| tag.site()) == slot.sites(),
    decreases slot,
{
    match slot {
        Metadata::Span(tag) => {
            lemma_layers(tag.inner);
            assert(slot.layers().map_values(|tag: Spanned| tag.site()) =~= slot.sites());
        },
        _ => {
            assert(slot.layers().map_values(|tag: Spanned| tag.site()) =~= slot.sites());
        },
    }
}

impl Clone for Metadata {
    /// A slot that holds the same.
    fn clone(&self) -> (copy: Metadata)
        ensures
            copy == *self,
        decreases self,
    {
        match self {
            Metadata::Empty => Metadata::Empty,
            Metadata::Span(tag) => Metadata::Span(Box::new((&**tag).clone())),
            Metadata::Foreign(label) => Metadata::Foreign(label.clone()),
        }
    }
}

impl Clone for Spanned {
    /// A tag that names the same place over the same slot.
    fn clone(&self) -> (copy: Spanned)
        ensures
            copy == *self,
        decreases self,
    {
        Spanned { file: self.file, line: self.line, inner: self.inner.clone() }
    }
}

impl Command {
    /// The command with one more tag laid over its metadata.
    pub open spec fn tagged(self, file: &'static str, line: u32) -> Command {
        Command { custom_data: self.custom_data.tagged(file, line), ..self }
    }

    /// Lays a tag over the command's metadata. What the slot held stays
    /// under the tag.
    pub fn attach_span(self, file: &'static str, line: u32) -> (command: Command)
        ensures
            command == self.tagged(file, line),
    {
        let Command { name, aliases, category, custom_data } = self;
        Command {
            name,
            aliases,
            category,
            custom_data: Metadata::Span(Box::new(Spanned { file, line, inner: custom_data })),
        }
    }
}

/// Makes a command with `factory` and tags it as defined in line `line` of
/// `file`. The tag goes over whatever `factory` left in the metadata slot,
/// so that a factory which tags its command itself is tagged once more.
pub fn inject_span<F: FnOnce() -> Command>(
    factory: F,
    file: &'static str,
    line: u32,
) -> (command: Command)
    requires
        factory.requires(()),
    ensures
        exists|made: Command|
            #[trigger] factory.ensures((), made) && command == made.tagged(file, line),
{
    let made = factory();
    made.attach_span(file, line)
}

/// The slot after tags for `places` were laid over it one after another,
/// the first of them first: the last of them ends up on top.
pub open spec fn wrapped(slot: Metadata, places: Seq<(&'static str, u32)>) -> Metadata
    decreases places.len(),
{
    if places.len() == 0 {
        slot
    } else {
        wrapped(slot, places.drop_last()).tagged(places.last().0, places.last().1)
    }
}

/// The place that a pair of a file and a line names.
pub open spec fn site_of(place: (&'static str, u32)) -> Site {
    Site { file: place.0@, line: place.1 }
}

impl Command {
    /// The command after it was tagged with `places` one after another.
    pub open spec fn wrapped(self, places: Seq<(&'static str, u32)>) -> Command {
        Command { custom_data: wrapped(self.custom_data, places), ..self }
    }
}

/// Tagging a command is tagging its metadata slot, one tag at a time.
pub proof fn lemma_wrapped_by_tagging(command: Command, places: Seq<(&'static str, u32)>)
    requires
        places.len() > 0,
    ensures
        command.wrapped(places) == command.wrapped(places.drop_last()).tagged(
            places.last().0,
            places.last().1,
        ),
{
}

/// Tags nest. A slot that was tagged `n` times in a row holds `n` tags
/// more than before, over what it held before. Walking the tags from the
/// top gives the places in the reverse of the order in which they were
/// tagged, so the tag on top is the one that was attached last. On a slot
/// that held no tag the chain is exactly `n` deep.
pub proof fn lemma_wraps_nest(slot: Metadata, places: Seq<(&'static str, u32)>)
    ensures
        wrapped(slot, places).depth() == slot.depth() + places.len(),
        wrapped(slot, places).sites() == places.reverse().map_values(
            |place: (&'static str, u32)| site_of(place),
        ) + slot.sites(),
        wrapped(slot, places).base() == slot.base(),
        !(slot is Span) ==> wrapped(slot, places).depth() == places.len(),
        places.len() > 0 ==> wrapped(slot, places).span() == Some(
            Spanned {
                file: places.last().0,
                line: places.last().1,
                inner: wrapped(slot, places.drop_last()),
            },
        ),
    decreases places.len(),
{
    let to_site = |place: (&'static str, u32)| site_of(place);
    if places.len() == 0 {
        assert(places.reverse().map_values(to_site) + slot.sites() =~= slot.sites());
    } else {
        let earlier = places.drop_last();
        lemma_wraps_nest(slot, earlier);
        assert(places.reverse().map_values(to_site) =~= seq![site_of(places.last())]
            + earlier.reverse().map_values(to_site));
        assert(wrapped(slot, places).sites() =~= places.reverse().map_values(to_site)
            + slot.sites());
    }
}

} // verus!
