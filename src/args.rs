use vstd::prelude::*;

verus! {

/// The three positional arguments: the two input paths and the output path.
#[derive(Debug)]
pub struct Args {
    pub image_one: String,
    pub image_two: String,
    pub output: String,
}

impl Args {
    /// Reads the arguments from a command line whose first entry is the program name.
    /// Entries after the third argument are ignored; fewer than three give `None`.
    pub fn new(argv: Vec<String>) -> (r: Option<Self>)
        ensures
            r is Some <==> argv.len() >= 4,
            r matches Some(a) ==> a.image_one == argv[1] && a.image_two == argv[2] && a.output
                == argv[3],
    {
        if argv.len() < 4 {
            return None;
        }
        let mut argv = argv;
        argv.truncate(4);
        let output = argv.pop();
        let image_two = argv.pop();
        let image_one = argv.pop();
        match (image_one, image_two, output) {
            (Some(image_one), Some(image_two), Some(output)) => Some(Args { image_one, image_two, output }),
            _ => None,
        }
    }
}

} // verus!
