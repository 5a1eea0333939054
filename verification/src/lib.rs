//! The verified core of two small TCP services: a byte echo service and a
//! line-of-JSON prime-check service. The primality predicate, the
//! request/response rules with their exact error messages, the response
//! encoding, and the per-chunk echo are stated in contracts and proved;
//! the sockets and the JSON decoding around them live outside the library.

pub mod echo;
pub mod primes;
pub mod protocol;
