//! Instruments and the accessors that initialise them.

use vstd::prelude::*;

verus! {

/// Why an instrument could not be reached.
#[derive(Debug)]
pub enum DeviceError {
    InitializationFailed,
    AccessorNotFound,
    Unknown(String),
}

/// A way of reaching an instrument.
pub trait Accessor {
    fn initialize(&self) -> Result<bool, DeviceError>;
}

/// An instrument that can be reached through an accessor.
pub trait Instrument {
    /// The instrument's name.
    spec fn name_view(&self) -> Seq<char>;

    fn get_name(&self) -> (r: String)
        ensures
            r@ == self.name_view(),
    ;

    fn get_accessor(&self) -> Result<Box<dyn Accessor>, DeviceError>;
}

/// An instrument with nothing behind it, for trying the plumbing.
pub struct DummyInstrument {
    name: String,
}

impl DummyInstrument {
    pub fn new() -> (r: DummyInstrument)
        ensures
            r.name_view() == seq![
                'D',
                'u',
                'm',
                'm',
                'y',
                ' ',
                'I',
                'n',
                's',
                't',
                'r',
                'u',
                'm',
                'e',
                'n',
                't',
            ],
    {
        let name = String::from_str("Dummy Instrument");
        proof {
            reveal_strlit("Dummy Instrument");
            assert(name@ =~= seq![
                'D',
                'u',
                'm',
                'm',
                'y',
                ' ',
                'I',
                'n',
                's',
                't',
                'r',
                'u',
                'm',
                'e',
                'n',
                't',
            ]);
        }
        DummyInstrument { name }
    }
}

impl Instrument for DummyInstrument {
    closed spec fn name_view(&self) -> Seq<char> {
        self.name@
    }

    fn get_name(&self) -> (r: String) {
        self.name.clone()
    }

    fn get_accessor(&self) -> Result<Box<dyn Accessor>, DeviceError> {
        Ok(Box::new(DummyAccessor))
    }
}

/// An accessor that always initialises.
pub struct DummyAccessor;

impl Accessor for DummyAccessor {
    fn initialize(&self) -> Result<bool, DeviceError> {
        Ok(true)
    }
}

} // verus!
