use vstd::prelude::*;

verus! {

/// Where the model graph is read from when nothing else is given.
pub const DEFAULT_MODEL_PATH: &'static str = "tiny_mlp_evaluator.onnx";

/// The `host:port` the service listens on when nothing else is given.
pub const DEFAULT_LISTEN_ADDR: &'static str = "0.0.0.0:8080";

/// The settings read once at startup.
pub struct Config {
    pub model_path: String,
    pub listen_addr: String,
}

impl Config {
    /// Settles the settings from what the environment gave, falling back to
    /// the defaults for whatever it left unset.
    pub fn resolve(model_path: Option<String>, listen_addr: Option<String>) -> (r: Config)
        ensures
            r.model_path@ == match model_path {
                Some(p) => p@,
                None => DEFAULT_MODEL_PATH@,
            },
            r.listen_addr@ == match listen_addr {
                Some(a) => a@,
                None => DEFAULT_LISTEN_ADDR@,
            },
    {
        let model_path = match model_path {
            Some(p) => p,
            None => DEFAULT_MODEL_PATH.to_owned(),
        };
        let listen_addr = match listen_addr {
            Some(a) => a,
            None => DEFAULT_LISTEN_ADDR.to_owned(),
        };
        Config { model_path, listen_addr }
    }
}

} // verus!
