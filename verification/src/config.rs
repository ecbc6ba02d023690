//! The fixed names, object handles and limits that shape one challenge
//! instance, gathered in one place so that a different challenge can be
//! configured without touching the protocol handler.

use vstd::prelude::*;
use vstd::string::StringExecFns;

verus! {

/// A handle naming a pre-existing object in the execution backend's storage,
/// in the backend's enumerated form: a creation index and a sequence number.
#[derive(Clone, Copy, PartialEq, Eq, Structural, Debug)]
pub struct ObjectHandle {
    pub index: u64,
    pub seq: u64,
}

/// One challenge instance's configuration: the module and entry names the
/// protocol invokes, the named address bindings under which modules are
/// published, the acting identities, the well-known object handles, the
/// payload cap, the listening port, and the optional secret disclosed on a
/// passing validation.
pub struct SessionConfig {
    /// Module name inside the challenge package that holds the validation entry.
    pub challenge_module: String,
    /// Module name the solution package is expected to contain.
    pub solve_module: String,
    /// Entry function invoked on the solution module.
    pub solve_function: String,
    /// Entry function invoked on the challenge module to judge the state.
    pub validate_function: String,
    /// Named address binding under which the challenge module is published.
    pub challenge_name: String,
    /// Named address binding under which the solution module is published.
    pub solution_name: String,
    /// Identity under whose authority the challenge is published.
    pub challenger: String,
    /// Identity under whose authority the solution is published and run.
    pub solver: String,
    /// Object handed by reference to the solution's entry function.
    pub solve_object: ObjectHandle,
    /// Object inspected and handed to the validation entry function.
    pub admin_object: ObjectHandle,
    /// Cap, in bytes, on the single read that receives the solution payload.
    pub max_solution_bytes: usize,
    /// TCP port the acceptor listens on.
    pub port: u16,
    /// Names bound to address zero when the backend is initialized.
    pub zero_address_bindings: Vec<String>,
    /// The secret disclosed on success; absence degrades to an error message.
    pub flag: Option<String>,
}

/// Mathematical image of a `SessionConfig`: every name as a character
/// sequence, the secret as an optional character sequence.
#[verifier::ext_equal]
pub ghost struct ConfigV {
    pub challenge_module: Seq<char>,
    pub solve_module: Seq<char>,
    pub solve_function: Seq<char>,
    pub validate_function: Seq<char>,
    pub challenge_name: Seq<char>,
    pub solution_name: Seq<char>,
    pub challenger: Seq<char>,
    pub solver: Seq<char>,
    pub solve_object: ObjectHandle,
    pub admin_object: ObjectHandle,
    pub max_solution_bytes: usize,
    pub port: u16,
    pub zero_address_bindings: Seq<Seq<char>>,
    pub flag: Option<Seq<char>>,
}

impl View for SessionConfig {
    type V = ConfigV;

    open spec fn view(&self) -> ConfigV {
        ConfigV {
            challenge_module: self.challenge_module@,
            solve_module: self.solve_module@,
            solve_function: self.solve_function@,
            validate_function: self.validate_function@,
            challenge_name: self.challenge_name@,
            solution_name: self.solution_name@,
            challenger: self.challenger@,
            solver: self.solver@,
            solve_object: self.solve_object,
            admin_object: self.admin_object,
            max_solution_bytes: self.max_solution_bytes,
            port: self.port,
            zero_address_bindings: self.zero_address_bindings.deep_view(),
            flag: self.flag.deep_view(),
        }
    }
}

/// The configuration of the deployed challenge instance, with the given
/// secret: the names and handles below are the ones the shipped challenge
/// package defines.
pub open spec fn standard_config_v(flag: Option<Seq<char>>) -> ConfigV {
    ConfigV {
        challenge_module: "version4"@,
        solve_module: "versionC"@,
        solve_function: "solve"@,
        validate_function: "is_expensive"@,
        challenge_name: "challenge"@,
        solution_name: "solution"@,
        challenger: "challenger"@,
        solver: "solver"@,
        solve_object: ObjectHandle { index: 1, seq: 0 },
        admin_object: ObjectHandle { index: 3, seq: 0 },
        max_solution_bytes: 2000,
        port: 31338,
        zero_address_bindings: seq!["retetomat"@, "solution"@],
        flag: flag,
    }
}

impl SessionConfig {
    /// Builds the deployed challenge instance's configuration around the
    /// secret the process was started with.
    pub fn standard(flag: Option<String>) -> (c: SessionConfig)
        ensures
            c@ == standard_config_v(flag.deep_view()),
    {
        let mut bindings: Vec<String> = Vec::new();
        bindings.push(String::from_str("retetomat"));
        bindings.push(String::from_str("solution"));
        let c = SessionConfig {
            challenge_module: String::from_str("version4"),
            solve_module: String::from_str("versionC"),
            solve_function: String::from_str("solve"),
            validate_function: String::from_str("is_expensive"),
            challenge_name: String::from_str("challenge"),
            solution_name: String::from_str("solution"),
            challenger: String::from_str("challenger"),
            solver: String::from_str("solver"),
            solve_object: ObjectHandle { index: 1, seq: 0 },
            admin_object: ObjectHandle { index: 3, seq: 0 },
            max_solution_bytes: 2000,
            port: 31338,
            zero_address_bindings: bindings,
            flag: flag,
        };
        proof {
            assert(c@.zero_address_bindings =~= standard_config_v(
                flag.deep_view(),
            ).zero_address_bindings);
            assert(c@ =~= standard_config_v(flag.deep_view()));
        }
        c
    }
}

} // verus!
