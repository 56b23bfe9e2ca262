//! A small page server: each request gets a page greeting one name drawn at
//! random from a fixed pool. The library holds the selection and the mapping
//! from a rendering outcome to an HTTP response; the template and the network
//! side live with the program around it.
pub mod names;
pub mod response;
