//! The string-keyed option mappings of the drawing interface.
//!
//! The drawing interface itself works in pixels and is the host's
//! concern; what belongs to the engine is how its string-valued options
//! map onto the container format's enumerations.

use vstd::prelude::*;
use vstd::string::StringExecFns;

use crate::error::EngineError;
use crate::swf_types::LineCapStyle;
use crate::value::{spec_coerce_to_string, Value};

verus! {

/// Maps the `caps` option onto a cap style: `Null` and `"none"` mean a
/// flat cap, `"round"` and `"square"` their styles; any other text is an
/// invalid argument, and a value only the host can render as text is
/// reported as such.
pub fn caps_to_cap_style(caps: &Value) -> (r: Result<LineCapStyle, EngineError>)
    ensures
        r == match *caps {
            Value::Null => Ok::<LineCapStyle, EngineError>(LineCapStyle::Flat),
            _ => match spec_coerce_to_string(*caps) {
                Some(t) => if t == "none"@ {
                    Ok::<LineCapStyle, EngineError>(LineCapStyle::Flat)
                } else if t == "round"@ {
                    Ok::<LineCapStyle, EngineError>(LineCapStyle::Round)
                } else if t == "square"@ {
                    Ok::<LineCapStyle, EngineError>(LineCapStyle::Square)
                } else {
                    Err::<LineCapStyle, EngineError>(EngineError::InvalidArgument)
                },
                None => Err::<LineCapStyle, EngineError>(EngineError::HostCoercionRequired),
            },
        },
{
    if matches!(caps, Value::Null) {
        return Ok(LineCapStyle::Flat);
    }
    let text = match caps.coerce_to_string() {
        Ok(s) => s,
        Err(e) => {
            return Err(e);
        },
    };
    if text == String::from_str("none") {
        Ok(LineCapStyle::Flat)
    } else if text == String::from_str("round") {
        Ok(LineCapStyle::Round)
    } else if text == String::from_str("square") {
        Ok(LineCapStyle::Square)
    } else {
        Err(EngineError::InvalidArgument)
    }
}

/// Maps the `scaleMode` option onto the two stroke-scaling permissions,
/// horizontal then vertical; any other text is an invalid argument.
pub fn scale_mode_to_allow_scale_bits(scale_mode: &String) -> (r: Result<
    (bool, bool),
    EngineError,
>)
    ensures
        r == if scale_mode@ == "normal"@ {
            Ok::<(bool, bool), EngineError>((true, true))
        } else if scale_mode@ == "none"@ {
            Ok::<(bool, bool), EngineError>((false, false))
        } else if scale_mode@ == "horizontal"@ {
            Ok::<(bool, bool), EngineError>((true, false))
        } else if scale_mode@ == "vertical"@ {
            Ok::<(bool, bool), EngineError>((false, true))
        } else {
            Err::<(bool, bool), EngineError>(EngineError::InvalidArgument)
        },
{
    if *scale_mode == String::from_str("normal") {
        Ok((true, true))
    } else if *scale_mode == String::from_str("none") {
        Ok((false, false))
    } else if *scale_mode == String::from_str("horizontal") {
        Ok((true, false))
    } else if *scale_mode == String::from_str("vertical") {
        Ok((false, true))
    } else {
        Err(EngineError::InvalidArgument)
    }
}

} // verus!
