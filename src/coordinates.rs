use vstd::prelude::*;

verus! {

/// The world a coordinate lies in.
#[derive(Clone, Copy, Debug, PartialEq, Eq, Structural)]
pub enum Dimension {
    Overworld,
    Nether,
    End,
}

/// Same text, same result: `a == b` is decided on the characters.
pub fn same_text(a: &str, b: &str) -> (r: bool)
    ensures
        r == (a@ == b@),
{
    a.to_owned() == b.to_owned()
}

impl Dimension {
    /// The name shown to users.
    pub open spec fn spec_label(self) -> Seq<char> {
        match self {
            Dimension::Overworld => "Overworld"@,
            Dimension::Nether => "Nether"@,
            Dimension::End => "End"@,
        }
    }

    /// The choice value that the `dimensao` option carries.
    pub open spec fn spec_from_choice(s: Seq<char>) -> Option<Dimension> {
        if s == "overworld"@ {
            Some(Dimension::Overworld)
        } else if s == "nether"@ {
            Some(Dimension::Nether)
        } else if s == "end"@ {
            Some(Dimension::End)
        } else {
            None
        }
    }

    pub fn label(&self) -> (r: &'static str)
        ensures
            r@ == self.spec_label(),
    {
        match self {
            Dimension::Overworld => "Overworld",
            Dimension::Nether => "Nether",
            Dimension::End => "End",
        }
    }

    pub fn from_choice(s: &str) -> (r: Option<Dimension>)
        ensures
            r == Dimension::spec_from_choice(s@),
    {
        if same_text(s, "overworld") {
            Some(Dimension::Overworld)
        } else if same_text(s, "nether") {
            Some(Dimension::Nether)
        } else if same_text(s, "end") {
            Some(Dimension::End)
        } else {
            None
        }
    }
}

/// A named place in the game world. `image` is the id of an attached picture.
#[derive(Debug)]
pub struct Coordinates {
    pub name: String,
    pub x: i64,
    pub y: i64,
    pub z: i64,
    pub dimension: Dimension,
    pub image: Option<u64>,
}

/// Mathematical view of [`Coordinates`].
pub struct CoordinatesView {
    pub name: Seq<char>,
    pub x: i64,
    pub y: i64,
    pub z: i64,
    pub dimension: Dimension,
    pub image: Option<u64>,
}

impl View for Coordinates {
    type V = CoordinatesView;

    open spec fn view(&self) -> CoordinatesView {
        CoordinatesView {
            name: self.name@,
            x: self.x,
            y: self.y,
            z: self.z,
            dimension: self.dimension,
            image: self.image,
        }
    }
}

impl Coordinates {
    pub fn new(name: String, x: i64, y: i64, z: i64, dimension: Dimension, image: Option<u64>) -> (r: Coordinates)
        ensures
            r@ == (CoordinatesView { name: name@, x, y, z, dimension, image }),
    {
        Coordinates { name, x, y, z, dimension, image }
    }

    pub fn duplicate(&self) -> (r: Coordinates)
        ensures
            r@ == self@,
    {
        Coordinates {
            name: self.name.clone(),
            x: self.x,
            y: self.y,
            z: self.z,
            dimension: self.dimension,
            image: self.image,
        }
    }
}

/// The typed value of one option of a slash command.
#[derive(Debug)]
pub enum OptionValue {
    Text(String),
    Integer(i64),
    Attachment(u64),
    SubCommand(Vec<CommandOption>),
    Other,
}

/// One named option of a slash command.
#[derive(Debug)]
pub struct CommandOption {
    pub name: String,
    pub value: OptionValue,
}

/// The first option named `key`, if any.
pub open spec fn find_option(opts: Seq<CommandOption>, key: Seq<char>) -> Option<CommandOption>
    decreases opts.len(),
{
    if opts.len() == 0 {
        None
    } else if opts[0].name@ == key {
        Some(opts[0])
    } else {
        find_option(opts.drop_first(), key)
    }
}

pub open spec fn text_value(o: Option<CommandOption>) -> Option<Seq<char>> {
    match o {
        Some(CommandOption { value: OptionValue::Text(s), .. }) => Some(s@),
        _ => None,
    }
}

pub open spec fn integer_value(o: Option<CommandOption>) -> Option<i64> {
    match o {
        Some(CommandOption { value: OptionValue::Integer(n), .. }) => Some(n),
        _ => None,
    }
}

pub open spec fn attachment_value(o: Option<CommandOption>) -> Option<u64> {
    match o {
        Some(CommandOption { value: OptionValue::Attachment(a), .. }) => Some(a),
        _ => None,
    }
}

/// The place that a creation request's options describe: `nome`, `x`, `y`,
/// `z` and `dimensao` are required, `imagem` is optional. Only the first option
/// of each name counts.
pub open spec fn spec_coordinates_of(opts: Seq<CommandOption>) -> Option<CoordinatesView> {
    let name = text_value(find_option(opts, "nome"@));
    let x = integer_value(find_option(opts, "x"@));
    let y = integer_value(find_option(opts, "y"@));
    let z = integer_value(find_option(opts, "z"@));
    let dim = match text_value(find_option(opts, "dimensao"@)) {
        Some(s) => Dimension::spec_from_choice(s),
        None => None,
    };
    if name is Some && x is Some && y is Some && z is Some && dim is Some {
        Some(CoordinatesView {
            name: name->0,
            x: x->0,
            y: y->0,
            z: z->0,
            dimension: dim->0,
            image: attachment_value(find_option(opts, "imagem"@)),
        })
    } else {
        None
    }
}

/// Index of the first option named `key`, or the length when there is none.
fn position(opts: &Vec<CommandOption>, key: &str) -> (r: usize)
    ensures
        r <= opts@.len(),
        r < opts@.len() ==> find_option(opts@, key@) == Some(opts@[r as int]),
        r == opts@.len() ==> find_option(opts@, key@) is None,
{
    let mut i: usize = 0;
    assert(opts@.subrange(0, opts@.len() as int) =~= opts@);
    while i < opts.len()
        invariant
            i <= opts@.len(),
            find_option(opts@, key@) == find_option(opts@.subrange(i as int, opts@.len() as int), key@),
        decreases opts@.len() - i,
    {
        let ghost rest = opts@.subrange(i as int, opts@.len() as int);
        assert(rest.drop_first() =~= opts@.subrange(i + 1, opts@.len() as int));
        if same_text(opts[i].name.as_str(), key) {
            return i;
        }
        i = i + 1;
    }
    i
}

fn text_of<'a>(opts: &'a Vec<CommandOption>, key: &str) -> (r: Option<&'a String>)
    ensures
        match r {
            Some(s) => text_value(find_option(opts@, key@)) == Some(s@),
            None => text_value(find_option(opts@, key@)) is None,
        },
{
    let i = position(opts, key);
    if i < opts.len() {
        match &opts[i].value {
            OptionValue::Text(s) => Some(s),
            _ => None,
        }
    } else {
        None
    }
}

fn integer_of(opts: &Vec<CommandOption>, key: &str) -> (r: Option<i64>)
    ensures
        r == integer_value(find_option(opts@, key@)),
{
    let i = position(opts, key);
    if i < opts.len() {
        match &opts[i].value {
            OptionValue::Integer(n) => Some(*n),
            _ => None,
        }
    } else {
        None
    }
}

fn attachment_of(opts: &Vec<CommandOption>, key: &str) -> (r: Option<u64>)
    ensures
        r == attachment_value(find_option(opts@, key@)),
{
    let i = position(opts, key);
    if i < opts.len() {
        match &opts[i].value {
            OptionValue::Attachment(a) => Some(*a),
            _ => None,
        }
    } else {
        None
    }
}

impl Coordinates {
    /// Reads a creation request's options; `Err` when one that is required is
    /// missing or of the wrong type, or the dimension is not a known choice.
    pub fn try_from(opts: &Vec<CommandOption>) -> (r: Result<Coordinates, ()>)
        ensures
            match r {
                Ok(c) => spec_coordinates_of(opts@) == Some(c@),
                Err(_) => spec_coordinates_of(opts@) is None,
            },
    {
        let name = match text_of(opts, "nome") {
            Some(s) => s,
            None => return Err(()),
        };
        let x = match integer_of(opts, "x") {
            Some(n) => n,
            None => return Err(()),
        };
        let y = match integer_of(opts, "y") {
            Some(n) => n,
            None => return Err(()),
        };
        let z = match integer_of(opts, "z") {
            Some(n) => n,
            None => return Err(()),
        };
        let dimension = match text_of(opts, "dimensao") {
            Some(s) => match Dimension::from_choice(s.as_str()) {
                Some(d) => d,
                None => return Err(()),
            },
            None => return Err(()),
        };
        let image = attachment_of(opts, "imagem");
        Ok(Coordinates::new(name.clone(), x, y, z, dimension, image))
    }
}

} // verus!
